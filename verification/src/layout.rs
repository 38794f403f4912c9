//! The layout builder: from an installation root and a platform profile
//! to the full, immutable set of installation paths.

use vstd::prelude::*;
use vstd::pervasive::unreached;
use crate::paths::{join_chars, path_join};
use vstd::string::StringExecFns;
use crate::platform::{
    dashboard_fname, dll_extension, dynlib_fname, spec_dashboard_fname, spec_dll_extension,
    spec_dll_prefix, spec_dll_suffix, spec_driver_platform_tag, Os,
};

verus! {

/// The per-directory overrides supplied at packaging time. Each one that
/// is set replaces the default FHS-relative path of its directory (still
/// joined onto the root), except `config_dir` and `log_dir`, whose
/// overrides are taken as whole paths independent of the root. On the
/// flat-layout family every override is ignored.
pub struct LayoutOverrides {
    pub executables_dir: Option<String>,
    pub libraries_dir: Option<String>,
    pub static_resources_dir: Option<String>,
    pub config_dir: Option<String>,
    pub log_dir: Option<String>,
    pub openvr_driver_root_dir: Option<String>,
    pub vrcompositor_wrapper_dir: Option<String>,
    pub firewall_script_dir: Option<String>,
    pub firewalld_config_dir: Option<String>,
    pub ufw_config_dir: Option<String>,
    pub vulkan_layer_manifest_dir: Option<String>,
}

impl LayoutOverrides {
    /// No override set: every directory keeps its default derivation.
    pub fn none() -> (r: LayoutOverrides)
        ensures
            r.executables_dir is None,
            r.libraries_dir is None,
            r.static_resources_dir is None,
            r.config_dir is None,
            r.log_dir is None,
            r.openvr_driver_root_dir is None,
            r.vrcompositor_wrapper_dir is None,
            r.firewall_script_dir is None,
            r.firewalld_config_dir is None,
            r.ufw_config_dir is None,
            r.vulkan_layer_manifest_dir is None,
    {
        LayoutOverrides {
            executables_dir: None,
            libraries_dir: None,
            static_resources_dir: None,
            config_dir: None,
            log_dir: None,
            openvr_driver_root_dir: None,
            vrcompositor_wrapper_dir: None,
            firewall_script_dir: None,
            firewalld_config_dir: None,
            ufw_config_dir: None,
            vulkan_layer_manifest_dir: None,
        }
    }
}

/// The host's standard per-user directories, as plain path values:
/// the base configuration directory and the home directory, each absent
/// when the host offers none.
pub struct UserDirs {
    pub config_base: Option<String>,
    pub home: Option<String>,
}

/// The chosen relative path of a directory: its override when one is
/// set, its fixed default otherwise.
pub open spec fn rel_or(ov: Option<String>, default: Seq<char>) -> Seq<char> {
    match ov {
        Some(s) => s@,
        None => default,
    }
}

/// The configuration directory on the FHS family: the whole-path
/// override when set, else the host configuration base joined with the
/// application's folder. Meaningful only when one of the two is present.
pub open spec fn spec_config_dir(ov: Option<String>, config_base: Option<String>) -> Seq<char> {
    match ov {
        Some(s) => s@,
        None => match config_base {
            Some(c) => join_chars(c@, ("alvr")@),
            None => Seq::empty(),
        },
    }
}

/// The log directory on the FHS family: the whole-path override when
/// set, else the user's home directory. Meaningful only when one of the
/// two is present.
pub open spec fn spec_log_dir(ov: Option<String>, home: Option<String>) -> Seq<char> {
    match ov {
        Some(s) => s@,
        None => match home {
            Some(h) => h@,
            None => Seq::empty(),
        },
    }
}

/// Whether the configuration and log directories can be resolved at all:
/// on the FHS family each needs its override or its host lookup, and a
/// missing one is an unrecoverable precondition failure.
pub open spec fn user_paths_resolvable(os: Os, ov: LayoutOverrides, ud: UserDirs) -> bool {
    os.is_fhs() ==> {
        &&& ov.config_dir is Some || ud.config_base is Some
        &&& ov.log_dir is Some || ud.home is Some
    }
}

/// The layout of an installation: the directories every consumer asks
/// for, each an absolute `/`-separated path (or a path relative to the
/// empty root in the degenerate construction, which callers must not
/// trust), together with the platform profile they were built for.
pub struct Layout {
    pub os: Os,
    /// Directory of the dashboard executable.
    pub executables_dir: String,
    /// Directory of the vulkan layer shared library (FHS family only).
    pub libraries_dir: String,
    /// Parent directory of static resources such as the dashboard and
    /// presets folders.
    pub static_resources_dir: String,
    /// Directory of configuration files such as the session settings.
    pub config_dir: String,
    /// Directory of the log files.
    pub log_dir: String,
    /// Directory registered as the OpenVR driver path.
    pub openvr_driver_root_dir: String,
    /// Parent directory of the vrcompositor wrapper (FHS family only).
    pub vrcompositor_wrapper_dir: String,
    /// Parent directory of the firewall script (FHS family only).
    pub firewall_script_dir: String,
    /// Parent directory of the firewalld config (FHS family only).
    pub firewalld_config_dir: String,
    /// Parent directory of the ufw config (FHS family only).
    pub ufw_config_dir: String,
    /// Directory of the vulkan layer manifest (FHS family only).
    pub vulkan_layer_manifest_dir: String,
}

/// How every field of a layout is derived from a root: on the FHS family
/// each directory is the root joined with its (overridable) relative
/// path, except the configuration and log directories, which do not
/// depend on the root at all; on the flat-layout family every directory
/// is the root itself.
pub open spec fn is_built_from(
    l: Layout,
    root: Seq<char>,
    os: Os,
    ov: LayoutOverrides,
    ud: UserDirs,
) -> bool {
    &&& l.os == os
    &&& if os.is_fhs() {
        &&& l.executables_dir@ == join_chars(root, rel_or(ov.executables_dir, ("bin")@))
        &&& l.libraries_dir@ == join_chars(root, rel_or(ov.libraries_dir, ("lib64")@))
        &&& l.static_resources_dir@ == join_chars(
            root,
            rel_or(ov.static_resources_dir, ("share/alvr")@),
        )
        &&& l.config_dir@ == spec_config_dir(ov.config_dir, ud.config_base)
        &&& l.log_dir@ == spec_log_dir(ov.log_dir, ud.home)
        &&& l.openvr_driver_root_dir@ == join_chars(
            root,
            rel_or(ov.openvr_driver_root_dir, ("lib64/alvr")@),
        )
        &&& l.vrcompositor_wrapper_dir@ == join_chars(
            root,
            rel_or(ov.vrcompositor_wrapper_dir, ("libexec/alvr")@),
        )
        &&& l.firewall_script_dir@ == join_chars(
            root,
            rel_or(ov.firewall_script_dir, ("libexec/alvr")@),
        )
        &&& l.firewalld_config_dir@ == join_chars(
            root,
            rel_or(ov.firewalld_config_dir, ("libexec/alvr")@),
        )
        &&& l.ufw_config_dir@ == join_chars(root, rel_or(ov.ufw_config_dir, ("libexec/alvr")@))
        &&& l.vulkan_layer_manifest_dir@ == join_chars(
            root,
            rel_or(ov.vulkan_layer_manifest_dir, ("share/vulkan/explicit_layer.d")@),
        )
    } else {
        &&& l.executables_dir@ == root
        &&& l.libraries_dir@ == root
        &&& l.static_resources_dir@ == root
        &&& l.config_dir@ == root
        &&& l.log_dir@ == root
        &&& l.openvr_driver_root_dir@ == root
        &&& l.vrcompositor_wrapper_dir@ == root
        &&& l.firewall_script_dir@ == root
        &&& l.firewalld_config_dir@ == root
        &&& l.ufw_config_dir@ == root
        &&& l.vulkan_layer_manifest_dir@ == root
    }
}

/// Two layouts that agree on every path and on the platform profile.
pub open spec fn path_equivalent(a: Layout, b: Layout) -> bool {
    &&& a.os == b.os
    &&& a.executables_dir@ == b.executables_dir@
    &&& a.libraries_dir@ == b.libraries_dir@
    &&& a.static_resources_dir@ == b.static_resources_dir@
    &&& a.config_dir@ == b.config_dir@
    &&& a.log_dir@ == b.log_dir@
    &&& a.openvr_driver_root_dir@ == b.openvr_driver_root_dir@
    &&& a.vrcompositor_wrapper_dir@ == b.vrcompositor_wrapper_dir@
    &&& a.firewall_script_dir@ == b.firewall_script_dir@
    &&& a.firewalld_config_dir@ == b.firewalld_config_dir@
    &&& a.ufw_config_dir@ == b.ufw_config_dir@
    &&& a.vulkan_layer_manifest_dir@ == b.vulkan_layer_manifest_dir@
}

fn join_override(root: &str, ov: &Option<String>, default: &str) -> (r: String)
    ensures
        r@ == join_chars(root@, rel_or(*ov, default@)),
{
    match ov {
        Some(s) => path_join(root, s.as_str()),
        None => path_join(root, default),
    }
}

fn resolve_config_dir(ov: &Option<String>, config_base: &Option<String>) -> (r: String)
    requires
        ov is Some || config_base is Some,
    ensures
        r@ == spec_config_dir(*ov, *config_base),
{
    match ov {
        Some(s) => s.clone(),
        None => match config_base {
            Some(c) => path_join(c.as_str(), "alvr"),
            None => unreached(),
        },
    }
}

fn resolve_log_dir(ov: &Option<String>, home: &Option<String>) -> (r: String)
    requires
        ov is Some || home is Some,
    ensures
        r@ == spec_log_dir(*ov, *home),
{
    match ov {
        Some(s) => s.clone(),
        None => match home {
            Some(h) => h.clone(),
            None => unreached(),
        },
    }
}

impl Layout {
    /// Builds the layout for a root: pure and total, it derives every
    /// directory from the root, the platform profile, the overrides and
    /// the host's user directories, exactly as `is_built_from` states.
    pub fn new(root: &str, os: Os, overrides: &LayoutOverrides, user_dirs: &UserDirs) -> (r:
        Layout)
        requires
            user_paths_resolvable(os, *overrides, *user_dirs),
        ensures
            is_built_from(r, root@, os, *overrides, *user_dirs),
    {
        if os == Os::Linux {
            Layout {
                os,
                executables_dir: join_override(root, &overrides.executables_dir, "bin"),
                libraries_dir: join_override(root, &overrides.libraries_dir, "lib64"),
                static_resources_dir: join_override(
                    root,
                    &overrides.static_resources_dir,
                    "share/alvr",
                ),
                config_dir: resolve_config_dir(&overrides.config_dir, &user_dirs.config_base),
                log_dir: resolve_log_dir(&overrides.log_dir, &user_dirs.home),
                openvr_driver_root_dir: join_override(
                    root,
                    &overrides.openvr_driver_root_dir,
                    "lib64/alvr",
                ),
                vrcompositor_wrapper_dir: join_override(
                    root,
                    &overrides.vrcompositor_wrapper_dir,
                    "libexec/alvr",
                ),
                firewall_script_dir: join_override(
                    root,
                    &overrides.firewall_script_dir,
                    "libexec/alvr",
                ),
                firewalld_config_dir: join_override(
                    root,
                    &overrides.firewalld_config_dir,
                    "libexec/alvr",
                ),
                ufw_config_dir: join_override(root, &overrides.ufw_config_dir, "libexec/alvr"),
                vulkan_layer_manifest_dir: join_override(
                    root,
                    &overrides.vulkan_layer_manifest_dir,
                    "share/vulkan/explicit_layer.d",
                ),
            }
        } else {
            Layout {
                os,
                executables_dir: root.to_owned(),
                libraries_dir: root.to_owned(),
                static_resources_dir: root.to_owned(),
                config_dir: root.to_owned(),
                log_dir: root.to_owned(),
                openvr_driver_root_dir: root.to_owned(),
                vrcompositor_wrapper_dir: root.to_owned(),
                firewall_script_dir: root.to_owned(),
                firewalld_config_dir: root.to_owned(),
                ufw_config_dir: root.to_owned(),
                vulkan_layer_manifest_dir: root.to_owned(),
            }
        }
    }
}

/// The full path of the dashboard executable of a layout.
pub open spec fn spec_dashboard_exe(l: Layout) -> Seq<char> {
    join_chars(l.executables_dir@, spec_dashboard_fname(l.os))
}

/// The directory of the OpenVR driver shared library of a layout:
/// `bin/<platform tag>` under the driver root.
pub open spec fn spec_openvr_driver_lib_dir(l: Layout) -> Seq<char> {
    join_chars(join_chars(l.openvr_driver_root_dir@, ("bin")@), spec_driver_platform_tag(l.os))
}

/// The session-log filename, which differs between the two families.
pub open spec fn spec_session_log_fname(os: Os) -> Seq<char> {
    if os.is_fhs() {
        ("alvr_session_log.txt")@
    } else {
        ("session_log.txt")@
    }
}

impl Layout {
    /// The full path of the dashboard executable.
    pub fn dashboard_exe(&self) -> (r: String)
        ensures
            r@ == spec_dashboard_exe(*self),
    {
        path_join(self.executables_dir.as_str(), dashboard_fname(self.os))
    }

    /// The directory of the OpenVR driver's static resources.
    pub fn resources_dir(&self) -> (r: String)
        ensures
            r@ == join_chars(self.openvr_driver_root_dir@, ("resources")@),
    {
        path_join(self.openvr_driver_root_dir.as_str(), "resources")
    }

    /// The directory of the dashboard's static resources.
    pub fn dashboard_dir(&self) -> (r: String)
        ensures
            r@ == join_chars(self.static_resources_dir@, ("dashboard")@),
    {
        path_join(self.static_resources_dir.as_str(), "dashboard")
    }

    /// The directory of the settings presets.
    pub fn presets_dir(&self) -> (r: String)
        ensures
            r@ == join_chars(self.static_resources_dir@, ("presets")@),
    {
        path_join(self.static_resources_dir.as_str(), "presets")
    }

    /// The path of the session settings file.
    pub fn session(&self) -> (r: String)
        ensures
            r@ == join_chars(self.config_dir@, ("session.json")@),
    {
        path_join(self.config_dir.as_str(), "session.json")
    }

    /// The path of the session log file.
    pub fn session_log(&self) -> (r: String)
        ensures
            r@ == join_chars(self.log_dir@, spec_session_log_fname(self.os)),
    {
        if self.os == Os::Linux {
            path_join(self.log_dir.as_str(), "alvr_session_log.txt")
        } else {
            path_join(self.log_dir.as_str(), "session_log.txt")
        }
    }

    /// The path of the crash log file.
    pub fn crash_log(&self) -> (r: String)
        ensures
            r@ == join_chars(self.log_dir@, ("crash_log.txt")@),
    {
        path_join(self.log_dir.as_str(), "crash_log.txt")
    }

    /// The directory of the OpenVR driver shared library. Defined only
    /// for the three supported operating systems: asking for it on any
    /// other is an unimplemented-platform defect, which callers must
    /// treat as fatal rather than receive a wrong path.
    pub fn openvr_driver_lib_dir(&self) -> (r: String)
        requires
            self.os.is_supported_driver_platform(),
        ensures
            r@ == spec_openvr_driver_lib_dir(*self),
    {
        let platform: &str = match self.os {
            Os::Windows => "win64",
            Os::Linux => "linux64",
            Os::Macos => "macos",
            Os::Other => unreached(),
        };
        let bin_dir = path_join(self.openvr_driver_root_dir.as_str(), "bin");
        path_join(bin_dir.as_str(), platform)
    }

    /// The path of the shared library that OpenVR loads.
    pub fn openvr_driver_lib(&self) -> (r: String)
        requires
            self.os.is_supported_driver_platform(),
        ensures
            r@ == join_chars(
                spec_openvr_driver_lib_dir(*self),
                ("driver_alvr_server.")@ + spec_dll_extension(self.os),
            ),
    {
        let dir = self.openvr_driver_lib_dir();
        let name = "driver_alvr_server.".to_owned().concat(dll_extension(self.os));
        path_join(dir.as_str(), name.as_str())
    }

    /// The path of the manifest file that is registered with OpenVR.
    pub fn openvr_driver_manifest(&self) -> (r: String)
        ensures
            r@ == join_chars(self.openvr_driver_root_dir@, ("driver.vrdrivermanifest")@),
    {
        path_join(self.openvr_driver_root_dir.as_str(), "driver.vrdrivermanifest")
    }

    /// The path of the executable that wraps vrcompositor.
    pub fn vrcompositor_wrapper(&self) -> (r: String)
        ensures
            r@ == join_chars(self.vrcompositor_wrapper_dir@, ("vrcompositor-wrapper")@),
    {
        path_join(self.vrcompositor_wrapper_dir.as_str(), "vrcompositor-wrapper")
    }

    /// The path of the DRM lease shim library.
    pub fn drm_lease_shim(&self) -> (r: String)
        ensures
            r@ == join_chars(self.vrcompositor_wrapper_dir@, ("alvr_drm_lease_shim.so")@),
    {
        path_join(self.vrcompositor_wrapper_dir.as_str(), "alvr_drm_lease_shim.so")
    }

    /// The path of the vulkan layer shared library.
    pub fn vulkan_layer(&self) -> (r: String)
        ensures
            r@ == join_chars(
                self.libraries_dir@,
                spec_dll_prefix(self.os) + ("alvr_vulkan_layer")@ + spec_dll_suffix(self.os),
            ),
    {
        let name = dynlib_fname(self.os, "alvr_vulkan_layer");
        path_join(self.libraries_dir.as_str(), name.as_str())
    }

    /// The path of the firewall setup script.
    pub fn firewall_script(&self) -> (r: String)
        ensures
            r@ == join_chars(self.firewall_script_dir@, ("alvr_fw_config.sh")@),
    {
        path_join(self.firewall_script_dir.as_str(), "alvr_fw_config.sh")
    }

    /// The path of the firewalld service configuration.
    pub fn firewalld_config(&self) -> (r: String)
        ensures
            r@ == join_chars(self.firewalld_config_dir@, ("alvr-firewalld.xml")@),
    {
        path_join(self.firewalld_config_dir.as_str(), "alvr-firewalld.xml")
    }

    /// The path of the ufw application profile.
    pub fn ufw_config(&self) -> (r: String)
        ensures
            r@ == join_chars(self.ufw_config_dir@, ("ufw-alvr")@),
    {
        path_join(self.ufw_config_dir.as_str(), "ufw-alvr")
    }

    /// The path of the vulkan layer manifest.
    pub fn vulkan_layer_manifest(&self) -> (r: String)
        ensures
            r@ == join_chars(self.vulkan_layer_manifest_dir@, ("alvr_x86_64.json")@),
    {
        path_join(self.vulkan_layer_manifest_dir.as_str(), "alvr_x86_64.json")
    }
}

impl Clone for Layout {
    fn clone(&self) -> (r: Self)
        ensures
            r == *self,
    {
        Layout {
            os: self.os,
            executables_dir: self.executables_dir.clone(),
            libraries_dir: self.libraries_dir.clone(),
            static_resources_dir: self.static_resources_dir.clone(),
            config_dir: self.config_dir.clone(),
            log_dir: self.log_dir.clone(),
            openvr_driver_root_dir: self.openvr_driver_root_dir.clone(),
            vrcompositor_wrapper_dir: self.vrcompositor_wrapper_dir.clone(),
            firewall_script_dir: self.firewall_script_dir.clone(),
            firewalld_config_dir: self.firewalld_config_dir.clone(),
            ufw_config_dir: self.ufw_config_dir.clone(),
            vulkan_layer_manifest_dir: self.vulkan_layer_manifest_dir.clone(),
        }
    }
}

/// On the flat-layout family, every directory of a layout built from a
/// root is that root, exactly.
pub proof fn lemma_flat_layout_is_root(
    l: Layout,
    root: Seq<char>,
    os: Os,
    ov: LayoutOverrides,
    ud: UserDirs,
)
    requires
        is_built_from(l, root, os, ov, ud),
        !os.is_fhs(),
    ensures
        l.executables_dir@ == root,
        l.libraries_dir@ == root,
        l.static_resources_dir@ == root,
        l.config_dir@ == root,
        l.log_dir@ == root,
        l.openvr_driver_root_dir@ == root,
        l.vrcompositor_wrapper_dir@ == root,
        l.firewall_script_dir@ == root,
        l.firewalld_config_dir@ == root,
        l.ufw_config_dir@ == root,
        l.vulkan_layer_manifest_dir@ == root,
{
}

/// On the FHS family the configuration directory never depends on the
/// root: layouts built from any two roots agree on it, it equals the
/// whole-path override whenever one is set, and otherwise it is derived
/// from the host configuration base alone.
pub proof fn lemma_config_dir_independent_of_root(
    l1: Layout,
    root1: Seq<char>,
    l2: Layout,
    root2: Seq<char>,
    os: Os,
    ov: LayoutOverrides,
    ud: UserDirs,
)
    requires
        os.is_fhs(),
        is_built_from(l1, root1, os, ov, ud),
        is_built_from(l2, root2, os, ov, ud),
    ensures
        l1.config_dir@ == l2.config_dir@,
        l1.config_dir@ == spec_config_dir(ov.config_dir, ud.config_base),
        ov.config_dir matches Some(s) ==> l1.config_dir@ == s@,
{
}

/// For each supported operating system, the OpenVR driver library
/// directory ends with exactly the platform-tag segment of that system,
/// preceded by a separator.
pub proof fn lemma_driver_lib_dir_ends_with_platform_tag(l: Layout)
    requires
        l.os.is_supported_driver_platform(),
    ensures
        ({
            let dir = spec_openvr_driver_lib_dir(l);
            let tag = spec_driver_platform_tag(l.os);
            &&& dir.len() > tag.len()
            &&& dir.subrange(dir.len() - tag.len(), dir.len() as int) == tag
            &&& dir[dir.len() - tag.len() - 1] == '/'
        }),
{
    reveal_strlit("bin");
    let root = l.openvr_driver_root_dir@;
    let inner = join_chars(root, ("bin")@);
    let tag = spec_driver_platform_tag(l.os);
    assert(("bin")@.len() == 3);
    assert(("bin")@[2] == 'n');
    assert(inner.len() > 0);
    assert(inner.last() == 'n');
    let dir = spec_openvr_driver_lib_dir(l);
    assert(dir =~= inner.push('/') + tag);
    assert(dir.subrange(dir.len() - tag.len(), dir.len() as int) =~= tag);
    assert(dir[dir.len() - tag.len() - 1] == '/');
}

} // verus!
