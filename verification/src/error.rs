use vstd::prelude::*;

verus! {

/// Why a toggle was abandoned.
#[derive(Debug, Clone, Copy, PartialEq, Eq, Structural)]
pub enum ToggleError {
    /// A scratchpad definition that cannot be used.
    ConfigurationError,
    /// The daemon's socket is missing or refuses the connection.
    DaemonUnavailable,
    /// The daemon did not take the request or answer it in time.
    Timeout,
    /// The daemon's answer is not text or not of the expected shape.
    ProtocolError,
    /// No space of the inventory has the focus.
    NoFocusedSpace,
    /// The launched application showed no matching window in time.
    LaunchTimeout,
}

} // verus!
