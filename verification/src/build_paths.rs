//! Paths inside the development workspace: the build tree and the
//! artifacts it holds. Each function derives its path from the base
//! directory that the build environment supplies to the caller.

use vstd::prelude::*;
use vstd::string::StringExecFns;
use crate::paths::{join_chars, parent_chars, path_join, path_parent};
use crate::platform::{exec_fname, spec_exe_suffix, Os};

verus! {

/// The cargo target directory: four levels above the build-script
/// output directory, kept in canonical form by removing components
/// rather than appending `..`.
pub fn target_dir(out_dir: &str) -> (r: String)
    ensures
        r@ == parent_chars(parent_chars(parent_chars(parent_chars(out_dir@)))),
{
    let p1 = path_parent(out_dir);
    let p2 = path_parent(p1.as_str());
    let p3 = path_parent(p2.as_str());
    path_parent(p3.as_str())
}

/// The workspace root: two levels above this crate's manifest directory.
pub fn workspace_dir(manifest_dir: &str) -> (r: String)
    ensures
        r@ == parent_chars(parent_chars(manifest_dir@)),
{
    let p1 = path_parent(manifest_dir);
    path_parent(p1.as_str())
}

/// The directory of a sibling crate, by name.
pub fn crate_dir(manifest_dir: &str, name: &str) -> (r: String)
    ensures
        r@ == join_chars(parent_chars(manifest_dir@), name@),
{
    let parent = path_parent(manifest_dir);
    path_join(parent.as_str(), name)
}

/// The directory of prebuilt external dependencies.
pub fn deps_dir(workspace: &str) -> (r: String)
    ensures
        r@ == join_chars(workspace@, ("deps")@),
{
    path_join(workspace, "deps")
}

/// The directory that finished build artifacts are collected in.
pub fn build_dir(workspace: &str) -> (r: String)
    ensures
        r@ == join_chars(workspace@, ("build")@),
{
    path_join(workspace, "build")
}

/// The streamer's artifact directory, named for the build host's
/// operating system.
pub fn streamer_build_dir(workspace: &str, os_name: &str) -> (r: String)
    ensures
        r@ == join_chars(join_chars(workspace@, ("build")@), ("alvr_streamer_")@ + os_name@),
{
    let dir = build_dir(workspace);
    let name = "alvr_streamer_".to_owned().concat(os_name);
    path_join(dir.as_str(), name.as_str())
}

/// The launcher's artifact directory, named for the build host's
/// operating system.
pub fn launcher_build_dir(workspace: &str, os_name: &str) -> (r: String)
    ensures
        r@ == join_chars(join_chars(workspace@, ("build")@), ("alvr_launcher_")@ + os_name@),
{
    let dir = build_dir(workspace);
    let name = "alvr_launcher_".to_owned().concat(os_name);
    path_join(dir.as_str(), name.as_str())
}

/// The path of the launcher executable inside its artifact directory.
pub fn launcher_build_exe_path(workspace: &str, os_name: &str, os: Os) -> (r: String)
    ensures
        r@ == join_chars(
            join_chars(join_chars(workspace@, ("build")@), ("alvr_launcher_")@ + os_name@),
            ("ALVR Launcher")@ + spec_exe_suffix(os),
        ),
{
    let dir = launcher_build_dir(workspace, os_name);
    let name = exec_fname(os, "ALVR Launcher");
    path_join(dir.as_str(), name.as_str())
}

/// The path of the installer executable inside the temporary directory.
pub fn installer_path(temp_dir: &str, os: Os) -> (r: String)
    ensures
        r@ == join_chars(temp_dir@, ("alvr_installer")@ + spec_exe_suffix(os)),
{
    let name = exec_fname(os, "alvr_installer");
    path_join(temp_dir, name.as_str())
}

} // verus!
