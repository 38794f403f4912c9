//! Resolves the on-disk layout of an ALVR installation.
//!
//! A single installation root is turned into the full set of absolute
//! directory and file paths that the surrounding system asks for:
//! executables, shared libraries, configuration, logs, OpenVR driver
//! assets and firewall helpers. Paths are modelled as `/`-separated
//! strings. On the FHS operating-system family (Linux) each directory is
//! derived from the root through a table of individually overridable
//! relative paths; on the flat-layout family every directory is the root
//! itself. A build-time portable-root override takes precedence over any
//! path evidence, and roots are rewritten when the process runs inside
//! the pressure-vessel container runtime.

pub mod paths;
pub mod platform;
pub mod layout;
pub mod resolve;
pub mod build_paths;
pub mod host;

pub use layout::{Layout, LayoutOverrides, UserDirs};
pub use platform::Os;
pub use resolve::Resolver;
