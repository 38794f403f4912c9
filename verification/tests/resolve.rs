use alvr_filesystem::layout::{LayoutOverrides, UserDirs};
use alvr_filesystem::platform::Os;
use alvr_filesystem::resolve::Resolver;
use alvr_filesystem::build_paths;

fn user_dirs() -> UserDirs {
    UserDirs {
        config_base: Some(String::from("/home/u/.config")),
        home: Some(String::from("/home/u")),
    }
}

fn plain_resolver(os: Os) -> Resolver {
    Resolver::new(os, None, LayoutOverrides::none(), user_dirs(), None)
}

#[test]
fn dashboard_exe_entry_derives_the_root() {
    let r = plain_resolver(Os::Linux);
    let l = r.filesystem_layout_from_dashboard_exe("/usr/bin/alvr_dashboard");
    assert_eq!(l.executables_dir, "/usr/bin");
    assert_eq!(l.openvr_driver_root_dir, "/usr/lib64/alvr");

    let w = plain_resolver(Os::Windows);
    let lw = w.filesystem_layout_from_dashboard_exe("C:/ALVR/ALVR Dashboard.exe");
    assert_eq!(lw.executables_dir, "C:/ALVR");
}

#[test]
fn driver_root_entry_derives_the_root() {
    let r = plain_resolver(Os::Linux);
    let l = r.filesystem_layout_from_openvr_driver_root_dir("/usr/lib64/alvr");
    assert_eq!(l.executables_dir, "/usr/bin");
    assert_eq!(l.openvr_driver_root_dir, "/usr/lib64/alvr");

    let w = plain_resolver(Os::Windows);
    let lw = w.filesystem_layout_from_openvr_driver_root_dir("C:/ALVR");
    assert_eq!(lw.openvr_driver_root_dir, "C:/ALVR");
}

#[test]
fn invalid_entry_keeps_rootless_fields_usable() {
    let r = plain_resolver(Os::Linux);
    let l = r.filesystem_layout_invalid();
    assert_eq!(l.executables_dir, "bin");
    assert_eq!(l.config_dir, "/home/u/.config/alvr");
    assert_eq!(l.session(), "/home/u/.config/alvr/session.json");
}

#[test]
fn resolution_is_idempotent() {
    let r = plain_resolver(Os::Linux);
    let a = r.filesystem_layout_from_dashboard_exe("/usr/bin/alvr_dashboard");
    let b = r.filesystem_layout_from_dashboard_exe("/usr/bin/alvr_dashboard");
    assert_eq!(a.executables_dir, b.executables_dir);
    assert_eq!(a.config_dir, b.config_dir);
    assert_eq!(a.session_log(), b.session_log());
    assert_eq!(a.openvr_driver_lib(), b.openvr_driver_lib());

    let i1 = r.filesystem_layout_invalid();
    let i2 = r.filesystem_layout_invalid();
    assert_eq!(i1.session(), i2.session());
}

#[test]
fn root_override_wins_over_any_path_argument() {
    let r = Resolver::new(
        Os::Linux,
        Some(String::from("/opt/alvr")),
        LayoutOverrides::none(),
        user_dirs(),
        None,
    );
    let a = r.filesystem_layout_from_dashboard_exe("/usr/bin/alvr_dashboard");
    let b = r.filesystem_layout_from_openvr_driver_root_dir("/somewhere/else/entirely");
    let c = r.filesystem_layout_invalid();
    assert_eq!(a.executables_dir, "/opt/alvr/bin");
    assert_eq!(a.executables_dir, b.executables_dir);
    assert_eq!(b.executables_dir, c.executables_dir);
    assert_eq!(a.session(), b.session());
    assert_eq!(a.openvr_driver_root_dir, c.openvr_driver_root_dir);
}

#[test]
fn pressure_vessel_marker_rewrites_absolute_roots() {
    let r = Resolver::new(
        Os::Linux,
        None,
        LayoutOverrides::none(),
        user_dirs(),
        Some("pressure-vessel-extra-text"),
    );
    assert!(r.is_pressure_vessel);
    assert_eq!(r.pressure_vessel_path("/opt/app"), "/run/host/opt/app");
}

#[test]
fn other_runtime_marker_leaves_roots_unchanged() {
    let r = Resolver::new(
        Os::Linux,
        None,
        LayoutOverrides::none(),
        user_dirs(),
        Some("other-runtime"),
    );
    assert!(!r.is_pressure_vessel);
    assert_eq!(r.pressure_vessel_path("/opt/app"), "/opt/app");
}

#[test]
fn container_translation_applies_to_derived_roots() {
    let r = Resolver::new(
        Os::Linux,
        None,
        LayoutOverrides::none(),
        user_dirs(),
        Some("pressure-vessel"),
    );
    let l = r.filesystem_layout_from_dashboard_exe("/usr/bin/alvr_dashboard");
    assert_eq!(l.executables_dir, "/run/host/usr/bin");
}

#[test]
fn container_translation_applies_to_the_override_root() {
    let r = Resolver::new(
        Os::Linux,
        Some(String::from("/opt/alvr")),
        LayoutOverrides::none(),
        user_dirs(),
        Some("pressure-vessel-extra-text"),
    );
    let l = r.filesystem_layout_invalid();
    assert_eq!(l.executables_dir, "/run/host/opt/alvr/bin");
}

#[test]
fn translation_is_a_no_op_off_the_fhs_family() {
    let r = Resolver::new(
        Os::Windows,
        None,
        LayoutOverrides::none(),
        user_dirs(),
        Some("pressure-vessel-extra-text"),
    );
    assert_eq!(r.pressure_vessel_path("C:/ALVR"), "C:/ALVR");
}

#[test]
fn dashboard_exe_path_round_trips_on_flat_layouts() {
    let w = plain_resolver(Os::Windows);
    let path = "C:/Programs/ALVR/ALVR Dashboard.exe";
    let l = w.filesystem_layout_from_dashboard_exe(path);
    assert_eq!(l.dashboard_exe(), path);

    let m = plain_resolver(Os::Macos);
    let mac_path = "/Apps/ALVR/alvr_dashboard";
    let lm = m.filesystem_layout_from_dashboard_exe(mac_path);
    assert_eq!(lm.dashboard_exe(), mac_path);
}

#[test]
fn workspace_paths_derive_from_their_bases() {
    assert_eq!(build_paths::workspace_dir("/w/alvr/filesystem"), "/w");
    assert_eq!(build_paths::target_dir("/w/target/debug/build/x/out"), "/w/target");
    assert_eq!(build_paths::crate_dir("/w/alvr/filesystem", "client"), "/w/alvr/client");
    assert_eq!(build_paths::deps_dir("/w"), "/w/deps");
    assert_eq!(build_paths::build_dir("/w"), "/w/build");
    assert_eq!(build_paths::streamer_build_dir("/w", "linux"), "/w/build/alvr_streamer_linux");
    assert_eq!(build_paths::launcher_build_dir("/w", "windows"), "/w/build/alvr_launcher_windows");
    assert_eq!(
        build_paths::launcher_build_exe_path("/w", "windows", Os::Windows),
        "/w/build/alvr_launcher_windows/ALVR Launcher.exe"
    );
    assert_eq!(
        build_paths::installer_path("/tmp", Os::Linux),
        "/tmp/alvr_installer"
    );
}

#[test]
fn absent_marker_means_no_container() {
    let r = plain_resolver(Os::Linux);
    assert!(!r.is_pressure_vessel);
    assert_eq!(r.pressure_vessel_path("/opt/app"), "/opt/app");
}

#[test]
fn invalid_entry_on_flat_family_yields_empty_paths() {
    let r = plain_resolver(Os::Windows);
    let l = r.filesystem_layout_invalid();
    assert_eq!(l.executables_dir, "");
    assert_eq!(l.config_dir, "");
    assert_eq!(l.dashboard_exe(), "ALVR Dashboard.exe");
}

#[test]
fn host_user_dirs_lookup_returns() {
    // The values depend on the environment; the lookup itself must work.
    let ud = UserDirs::from_host();
    let _ = ud.config_base;
    let _ = ud.home;
}
