//! Host and interface version information.

use vstd::prelude::*;

verus! {

/// The versions the host reports: its own version, the plugin interface
/// version, and the identity of the running host application.
///
/// The plugin shell fills this in from the host at startup.
#[derive(Debug, Clone, Copy, PartialEq, Eq, Structural)]
pub struct VersionInfo {
    /// The host application's version number
    pub xplane_version: i32,
    /// The plugin interface version number
    pub xplm_version: i32,
    /// Which host application is running
    pub host_id: i32,
}

} // verus!
