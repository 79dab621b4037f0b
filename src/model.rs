use vstd::prelude::*;

verus! {

/// The health of a WAN as one probe found it.
#[derive(Clone, Copy, Debug, PartialEq, Eq, Structural)]
pub enum Verdict {
    Up,
    Down,
}

/// Whether a route entry on the router is in use.
#[derive(Clone, Copy, Debug, PartialEq, Eq, Structural)]
pub enum RouteState {
    Enabled,
    Disabled,
}

/// What running the probe process gave.
#[derive(Clone, Copy, Debug, PartialEq, Eq, Structural)]
pub enum ProbeOutcome {
    /// The process ran to its end; `success` is whether it reported success.
    Completed { success: bool },
    /// The process could not be started.
    LaunchFailed,
}

/// Why the current state of a route could not be learnt.
#[derive(Clone, Copy, Debug, PartialEq, Eq, Structural)]
pub enum ReadError {
    /// The session could not open a command channel.
    ChannelOpen,
    /// The query could not be sent.
    Dispatch,
    /// The response could not be read in full.
    Receive,
    /// The response, trimmed, was neither `true` nor `false`.
    Unrecognized,
}

} // verus!
