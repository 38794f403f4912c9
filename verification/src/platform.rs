//! The platform profile: the target operating system tag and the
//! filename conventions that depend on it.

use vstd::prelude::*;
use vstd::string::StringExecFns;

verus! {

/// The target operating system of an installation.
///
/// `Linux` is the FHS family: the installation is split across `bin/`,
/// `lib64/`, `share/` and so on. Every other tag is the flat-layout
/// family, where all artifacts live directly under one root. `Other`
/// stands for an operating system outside the three that the driver
/// supports; building layouts for it works, but no OpenVR driver
/// library subdirectory is defined for it.
#[derive(Clone, Copy, PartialEq, Eq, Structural, Debug)]
pub enum Os {
    Windows,
    Linux,
    Macos,
    Other,
}

impl Os {
    /// Whether this tag belongs to the FHS family.
    pub open spec fn is_fhs(self) -> bool {
        self is Linux
    }

    /// Whether an OpenVR driver library directory is defined for this tag.
    pub open spec fn is_supported_driver_platform(self) -> bool {
        self !is Other
    }
}

/// The native executable-name suffix: `.exe` on Windows, nothing elsewhere.
pub open spec fn spec_exe_suffix(os: Os) -> Seq<char> {
    if os is Windows {
        (".exe")@
    } else {
        Seq::empty()
    }
}

/// The native dynamic-library prefix: empty on Windows, `lib` elsewhere.
pub open spec fn spec_dll_prefix(os: Os) -> Seq<char> {
    if os is Windows {
        Seq::empty()
    } else {
        ("lib")@
    }
}

/// The native dynamic-library suffix: `.dll`, `.dylib` or `.so`.
pub open spec fn spec_dll_suffix(os: Os) -> Seq<char> {
    match os {
        Os::Windows => (".dll")@,
        Os::Macos => (".dylib")@,
        _ => (".so")@,
    }
}

/// The native dynamic-library extension, without the leading dot.
pub open spec fn spec_dll_extension(os: Os) -> Seq<char> {
    match os {
        Os::Windows => ("dll")@,
        Os::Macos => ("dylib")@,
        _ => ("so")@,
    }
}

/// The filename of the dashboard executable.
pub open spec fn spec_dashboard_fname(os: Os) -> Seq<char> {
    if os is Windows {
        ("ALVR Dashboard.exe")@
    } else {
        ("alvr_dashboard")@
    }
}

/// The platform tag of the OpenVR driver library subdirectory.
/// Meaningful only for the three supported operating systems.
pub open spec fn spec_driver_platform_tag(os: Os) -> Seq<char> {
    match os {
        Os::Windows => ("win64")@,
        Os::Linux => ("linux64")@,
        _ => ("macos")@,
    }
}

/// An executable filename: the given name with the OS-native suffix.
pub fn exec_fname(os: Os, name: &str) -> (r: String)
    ensures
        r@ == name@ + spec_exe_suffix(os),
{
    match os {
        Os::Windows => name.to_owned().concat(".exe"),
        _ => {
            proof {
                assert(name@ + Seq::<char>::empty() =~= name@);
            }
            name.to_owned()
        },
    }
}

/// A dynamic-library filename: the given name with the OS-native
/// prefix and suffix.
pub fn dynlib_fname(os: Os, name: &str) -> (r: String)
    ensures
        r@ == spec_dll_prefix(os) + name@ + spec_dll_suffix(os),
{
    match os {
        Os::Windows => {
            proof {
                assert((Seq::<char>::empty() + name@) + (".dll")@ =~= Seq::<char>::empty()
                    + name@ + (".dll")@);
                assert(Seq::<char>::empty() + name@ =~= name@);
            }
            name.to_owned().concat(".dll")
        },
        Os::Macos => {
            proof {
                assert((("lib")@ + name@) + (".dylib")@ =~= ("lib")@ + name@ + (".dylib")@);
            }
            "lib".to_owned().concat(name).concat(".dylib")
        },
        _ => {
            proof {
                assert((("lib")@ + name@) + (".so")@ =~= ("lib")@ + name@ + (".so")@);
            }
            "lib".to_owned().concat(name).concat(".so")
        },
    }
}

/// The native dynamic-library extension, without the leading dot.
pub fn dll_extension(os: Os) -> (r: &'static str)
    ensures
        r@ == spec_dll_extension(os),
{
    match os {
        Os::Windows => "dll",
        Os::Macos => "dylib",
        _ => "so",
    }
}

/// The filename of the dashboard executable for the given target.
pub fn dashboard_fname(os: Os) -> (r: &'static str)
    ensures
        r@ == spec_dashboard_fname(os),
{
    match os {
        Os::Windows => "ALVR Dashboard.exe",
        _ => "alvr_dashboard",
    }
}

} // verus!
