use vstd::prelude::*;
use crate::model::{Verdict, RouteState, ProbeOutcome};

verus! {

/// The state that every route of a WAN should be in under `verdict`.
pub open spec fn desired_spec(verdict: Verdict) -> RouteState {
    match verdict {
        Verdict::Up => RouteState::Enabled,
        Verdict::Down => RouteState::Disabled,
    }
}

/// The write that the decision table asks for: the desired state where the
/// route is in the other one, nothing where it already agrees.
pub open spec fn decide_spec(verdict: Verdict, current: RouteState) -> Option<RouteState> {
    if current == desired_spec(verdict) {
        None
    } else {
        Some(desired_spec(verdict))
    }
}

/// A probe counts as `Up` only when its process ran and reported success.
pub open spec fn verdict_spec(outcome: ProbeOutcome) -> Verdict {
    match outcome {
        ProbeOutcome::Completed { success: true } => Verdict::Up,
        _ => Verdict::Down,
    }
}

pub fn desired_state(verdict: Verdict) -> (r: RouteState)
    ensures
        r == desired_spec(verdict),
{
    match verdict {
        Verdict::Up => RouteState::Enabled,
        Verdict::Down => RouteState::Disabled,
    }
}

/// The write to issue for a route found in `current` under `verdict`, if any.
pub fn decide(verdict: Verdict, current: RouteState) -> (r: Option<RouteState>)
    ensures
        r == decide_spec(verdict, current),
        verdict == Verdict::Up && current == RouteState::Disabled ==> r == Some(RouteState::Enabled),
        verdict == Verdict::Up && current == RouteState::Enabled ==> r.is_none(),
        verdict == Verdict::Down && current == RouteState::Enabled ==> r == Some(RouteState::Disabled),
        verdict == Verdict::Down && current == RouteState::Disabled ==> r.is_none(),
{
    let want = desired_state(verdict);
    if current == want {
        None
    } else {
        Some(want)
    }
}

/// The verdict of a probe; a probe that could not be started counts as `Down`.
pub fn verdict_from_probe(outcome: ProbeOutcome) -> (r: Verdict)
    ensures
        r == verdict_spec(outcome),
        outcome == ProbeOutcome::LaunchFailed ==> r == Verdict::Down,
        r == Verdict::Up <==> outcome == (ProbeOutcome::Completed { success: true }),
{
    match outcome {
        ProbeOutcome::Completed { success } => {
            if success {
                Verdict::Up
            } else {
                Verdict::Down
            }
        },
        ProbeOutcome::LaunchFailed => Verdict::Down,
    }
}

} // verus!
