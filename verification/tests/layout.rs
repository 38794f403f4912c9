use alvr_filesystem::layout::{Layout, LayoutOverrides, UserDirs};
use alvr_filesystem::paths::{path_join, path_parent, str_starts_with};
use alvr_filesystem::platform::{dashboard_fname, dll_extension, dynlib_fname, exec_fname, Os};

fn user_dirs() -> UserDirs {
    UserDirs {
        config_base: Some(String::from("/home/u/.config")),
        home: Some(String::from("/home/u")),
    }
}

#[test]
fn join_inserts_one_separator() {
    assert_eq!(path_join("/usr", "bin"), "/usr/bin");
    assert_eq!(path_join("/usr/", "bin"), "/usr/bin");
    assert_eq!(path_join("", "bin"), "bin");
    assert_eq!(path_join("/usr", "share/alvr"), "/usr/share/alvr");
}

#[test]
fn parent_drops_last_component() {
    assert_eq!(path_parent("/usr/bin/alvr_dashboard"), "/usr/bin");
    assert_eq!(path_parent("/usr/bin"), "/usr");
    assert_eq!(path_parent("/bin"), "/");
    assert_eq!(path_parent("alvr_dashboard"), "");
    assert_eq!(path_parent(""), "");
}

#[test]
fn starts_with_compares_characters() {
    assert!(str_starts_with("pressure-vessel-extra-text", "pressure-vessel"));
    assert!(!str_starts_with("other-runtime", "pressure-vessel"));
    assert!(!str_starts_with("press", "pressure-vessel"));
}

#[test]
fn executable_filenames_follow_the_os() {
    assert_eq!(exec_fname(Os::Windows, "alvr_installer"), "alvr_installer.exe");
    assert_eq!(exec_fname(Os::Linux, "alvr_installer"), "alvr_installer");
    assert_eq!(exec_fname(Os::Macos, "alvr_installer"), "alvr_installer");
}

#[test]
fn dynlib_filenames_follow_the_os() {
    assert_eq!(dynlib_fname(Os::Windows, "alvr_vulkan_layer"), "alvr_vulkan_layer.dll");
    assert_eq!(dynlib_fname(Os::Linux, "alvr_vulkan_layer"), "libalvr_vulkan_layer.so");
    assert_eq!(dynlib_fname(Os::Macos, "alvr_vulkan_layer"), "libalvr_vulkan_layer.dylib");
}

#[test]
fn dashboard_filename_is_platform_conditional() {
    assert_eq!(dashboard_fname(Os::Windows), "ALVR Dashboard.exe");
    assert_eq!(dashboard_fname(Os::Linux), "alvr_dashboard");
    assert_eq!(dashboard_fname(Os::Macos), "alvr_dashboard");
}

#[test]
fn flat_layout_fields_all_equal_root() {
    let l = Layout::new("C:/Programs/ALVR", Os::Windows, &LayoutOverrides::none(), &user_dirs());
    assert_eq!(l.executables_dir, "C:/Programs/ALVR");
    assert_eq!(l.libraries_dir, "C:/Programs/ALVR");
    assert_eq!(l.static_resources_dir, "C:/Programs/ALVR");
    assert_eq!(l.config_dir, "C:/Programs/ALVR");
    assert_eq!(l.log_dir, "C:/Programs/ALVR");
    assert_eq!(l.openvr_driver_root_dir, "C:/Programs/ALVR");
    assert_eq!(l.vrcompositor_wrapper_dir, "C:/Programs/ALVR");
    assert_eq!(l.firewall_script_dir, "C:/Programs/ALVR");
    assert_eq!(l.firewalld_config_dir, "C:/Programs/ALVR");
    assert_eq!(l.ufw_config_dir, "C:/Programs/ALVR");
    assert_eq!(l.vulkan_layer_manifest_dir, "C:/Programs/ALVR");
}

#[test]
fn fhs_layout_uses_the_default_table() {
    let l = Layout::new("/usr", Os::Linux, &LayoutOverrides::none(), &user_dirs());
    assert_eq!(l.executables_dir, "/usr/bin");
    assert_eq!(l.libraries_dir, "/usr/lib64");
    assert_eq!(l.static_resources_dir, "/usr/share/alvr");
    assert_eq!(l.config_dir, "/home/u/.config/alvr");
    assert_eq!(l.log_dir, "/home/u");
    assert_eq!(l.openvr_driver_root_dir, "/usr/lib64/alvr");
    assert_eq!(l.vrcompositor_wrapper_dir, "/usr/libexec/alvr");
    assert_eq!(l.firewall_script_dir, "/usr/libexec/alvr");
    assert_eq!(l.firewalld_config_dir, "/usr/libexec/alvr");
    assert_eq!(l.ufw_config_dir, "/usr/libexec/alvr");
    assert_eq!(l.vulkan_layer_manifest_dir, "/usr/share/vulkan/explicit_layer.d");
}

#[test]
fn fhs_directory_overrides_replace_the_relative_path() {
    let mut ov = LayoutOverrides::none();
    ov.executables_dir = Some(String::from("games"));
    ov.openvr_driver_root_dir = Some(String::from("lib/alvr"));
    let l = Layout::new("/usr", Os::Linux, &ov, &user_dirs());
    assert_eq!(l.executables_dir, "/usr/games");
    assert_eq!(l.openvr_driver_root_dir, "/usr/lib/alvr");
    // the others keep their defaults
    assert_eq!(l.libraries_dir, "/usr/lib64");
}

#[test]
fn config_and_log_overrides_are_whole_paths() {
    let mut ov = LayoutOverrides::none();
    ov.config_dir = Some(String::from("/etc/alvr"));
    ov.log_dir = Some(String::from("/var/log/alvr"));
    let l = Layout::new("/usr", Os::Linux, &ov, &user_dirs());
    assert_eq!(l.config_dir, "/etc/alvr");
    assert_eq!(l.log_dir, "/var/log/alvr");
}

#[test]
fn config_dir_ignores_the_root() {
    let a = Layout::new("/usr", Os::Linux, &LayoutOverrides::none(), &user_dirs());
    let b = Layout::new("/opt/alvr", Os::Linux, &LayoutOverrides::none(), &user_dirs());
    assert_eq!(a.config_dir, b.config_dir);
    assert_eq!(a.log_dir, b.log_dir);
}

#[test]
fn accessors_join_fixed_filenames() {
    let l = Layout::new("/usr", Os::Linux, &LayoutOverrides::none(), &user_dirs());
    assert_eq!(l.dashboard_exe(), "/usr/bin/alvr_dashboard");
    assert_eq!(l.resources_dir(), "/usr/lib64/alvr/resources");
    assert_eq!(l.dashboard_dir(), "/usr/share/alvr/dashboard");
    assert_eq!(l.presets_dir(), "/usr/share/alvr/presets");
    assert_eq!(l.session(), "/home/u/.config/alvr/session.json");
    assert_eq!(l.session_log(), "/home/u/alvr_session_log.txt");
    assert_eq!(l.crash_log(), "/home/u/crash_log.txt");
    assert_eq!(l.openvr_driver_manifest(), "/usr/lib64/alvr/driver.vrdrivermanifest");
    assert_eq!(l.vrcompositor_wrapper(), "/usr/libexec/alvr/vrcompositor-wrapper");
    assert_eq!(l.drm_lease_shim(), "/usr/libexec/alvr/alvr_drm_lease_shim.so");
    assert_eq!(l.vulkan_layer(), "/usr/lib64/libalvr_vulkan_layer.so");
    assert_eq!(l.firewall_script(), "/usr/libexec/alvr/alvr_fw_config.sh");
    assert_eq!(l.firewalld_config(), "/usr/libexec/alvr/alvr-firewalld.xml");
    assert_eq!(l.ufw_config(), "/usr/libexec/alvr/ufw-alvr");
    assert_eq!(
        l.vulkan_layer_manifest(),
        "/usr/share/vulkan/explicit_layer.d/alvr_x86_64.json"
    );
}

#[test]
fn session_log_filename_differs_off_the_fhs_family() {
    let l = Layout::new("C:/ALVR", Os::Windows, &LayoutOverrides::none(), &user_dirs());
    assert_eq!(l.session_log(), "C:/ALVR/session_log.txt");
    assert_eq!(l.dashboard_exe(), "C:/ALVR/ALVR Dashboard.exe");
}

#[test]
fn driver_lib_dir_selects_the_platform_tag() {
    let ov = LayoutOverrides::none();
    let win = Layout::new("C:/ALVR", Os::Windows, &ov, &user_dirs());
    assert!(win.openvr_driver_lib_dir().ends_with("/win64"));
    assert_eq!(win.openvr_driver_lib_dir(), "C:/ALVR/bin/win64");
    assert_eq!(win.openvr_driver_lib(), "C:/ALVR/bin/win64/driver_alvr_server.dll");

    let lin = Layout::new("/usr", Os::Linux, &ov, &user_dirs());
    assert!(lin.openvr_driver_lib_dir().ends_with("/linux64"));
    assert_eq!(lin.openvr_driver_lib_dir(), "/usr/lib64/alvr/bin/linux64");
    assert_eq!(lin.openvr_driver_lib(), "/usr/lib64/alvr/bin/linux64/driver_alvr_server.so");

    let mac = Layout::new("/Apps/ALVR", Os::Macos, &ov, &user_dirs());
    assert!(mac.openvr_driver_lib_dir().ends_with("/macos"));
    assert_eq!(mac.openvr_driver_lib(), "/Apps/ALVR/bin/macos/driver_alvr_server.dylib");
    assert_eq!(dll_extension(Os::Macos), "dylib");
}

#[test]
fn cloned_layouts_are_identical() {
    let l = Layout::new("/usr", Os::Linux, &LayoutOverrides::none(), &user_dirs());
    let c = l.clone();
    assert_eq!(l.executables_dir, c.executables_dir);
    assert_eq!(l.session(), c.session());
    assert_eq!(l.openvr_driver_lib(), c.openvr_driver_lib());
}
