//! The kinds of host that the operations tell apart.

use vstd::prelude::*;

verus! {

/// The environment variable in which Windows names the Linux distribution that
/// it hosts.
pub const DISTRO_VARIABLE: &'static str = "WSL_DISTRO_NAME";

/// The kind of machine an operation is asked to run on.
#[derive(Clone, Copy, Debug, PartialEq, Eq, Structural)]
pub enum Host {
    /// A Windows desktop, driven through its native interface.
    Windows,
    /// Linux running under Windows, which reaches the desktop by running
    /// Windows programs.
    Bridged,
    /// Anything else: no operation is available.
    Other,
}

impl Host {
    /// The host that three facts about the machine describe.
    pub open spec fn of(windows: bool, linux: bool, distro_named: bool) -> Host {
        if windows {
            Host::Windows
        } else if linux && distro_named {
            Host::Bridged
        } else {
            Host::Other
        }
    }

    /// Classifies the machine: `windows` and `linux` say what the program was
    /// built for, `distro_named` whether the environment holds a readable
    /// value under `DISTRO_VARIABLE`.
    pub fn detect(windows: bool, linux: bool, distro_named: bool) -> (host: Host)
        ensures
            host == Host::of(windows, linux, distro_named),
    {
        if windows {
            Host::Windows
        } else if linux && distro_named {
            Host::Bridged
        } else {
            Host::Other
        }
    }
}

} // verus!
