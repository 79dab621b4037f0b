//! Failover of router routes driven by the reachability of WAN uplinks.
//!
//! Each reconciliation pass probes a WAN, reads the current state of each of its
//! routes from the router, and issues only the writes that bring a route to the
//! state the probe's verdict asks for. The library holds the decisions and the
//! encoding of the router's commands; the session and the probe process belong
//! to the program around it.
pub mod model;
pub mod decision;
pub mod command;
pub mod probe;
pub mod wan;
pub mod pass;
pub mod laws;

pub use model::{Verdict, RouteState, ProbeOutcome, ReadError};
pub use decision::{desired_state, decide, verdict_from_probe};
pub use command::{toggle_command, query_command, parse_disabled_flag};
pub use probe::{decimal, ping_arguments, ProbeConfig};
pub use wan::WanInterface;
pub use pass::{ReadOutcome, PassStep, ReconcilePass};
