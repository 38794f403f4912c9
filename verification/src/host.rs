//! The host's standard per-user directory lookups, behind trusted
//! wrappers: their results depend on the process environment, so the
//! contracts state nothing of them, and everything derived from them is
//! verified for every value they could return.

use vstd::prelude::*;
use crate::layout::UserDirs;

verus! {

/// Relies on dirs::config_dir: the platform's standard per-user
/// configuration directory, absent when the host defines none. The
/// result depends on the process environment.
#[verifier::external_body]
fn host_config_base_dir() -> Option<String> {
    dirs::config_dir().map(|p| p.to_string_lossy().into_owned())
}

/// Relies on dirs::home_dir: the user's home directory, absent when the
/// host defines none. The result depends on the process environment.
#[verifier::external_body]
fn host_home_dir() -> Option<String> {
    dirs::home_dir().map(|p| p.to_string_lossy().into_owned())
}

impl UserDirs {
    /// Looks up the host's user directories, once, for the resolver's
    /// construction.
    pub fn from_host() -> UserDirs {
        UserDirs { config_base: host_config_base_dir(), home: host_home_dir() }
    }
}

} // verus!
