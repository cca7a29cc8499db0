//! The fixed settings of the shell. None of them is configurable.

use vstd::prelude::*;

verus! {

/// The port on which the sidecar listens, and which cleanup sweeps.
pub const SIDECAR_PORT: u16 = 3354;

/// The name of the bundled sidecar executable. A process bound to the
/// sidecar port is taken for the sidecar when its display name contains it.
pub const SIDECAR_NAME: &'static str = "csemInsight";

/// The label of the window whose end is the end of the application.
pub const MAIN_WINDOW: &'static str = "main";

/// The name of the signal that terminates the sidecar.
pub const KILL_SIGNAL: &'static str = "SIGKILL";

/// The exit code of an orderly shutdown.
pub const EXIT_CODE: i32 = 0;

} // verus!
