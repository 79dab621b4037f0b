use vstd::prelude::*;
use crate::model::{Verdict, RouteState, ProbeOutcome};
use crate::decision::{decide_spec, desired_spec, verdict_spec};
use crate::pass::{ReadOutcome, write_for, pass_writes, pass_result, first_error};

verus! {

/// The outcomes of reading routes that are in `states`, every read succeeding.
pub open spec fn read_all(states: Seq<RouteState>) -> Seq<ReadOutcome> {
    states.map_values(|s: RouteState| Ok::<RouteState, crate::model::ReadError>(s))
}

/// The routes' states after `writes` took effect, one slot per route.
pub open spec fn apply_writes(states: Seq<RouteState>, writes: Seq<Option<RouteState>>) -> Seq<RouteState>
    recommends
        states.len() == writes.len(),
{
    Seq::new(states.len(), |i: int| match writes[i] {
        Some(t) => t,
        None => states[i],
    })
}

/// The routes' states after a pass under `verdict` that read `states` and
/// whose writes all took effect.
pub open spec fn after_pass(verdict: Verdict, states: Seq<RouteState>) -> Seq<RouteState> {
    apply_writes(states, pass_writes(verdict, read_all(states)))
}

/// The write for a route depends on the verdict and on that route's state
/// alone: wherever two passes read the same state under the same verdict, at
/// whatever position and beside whatever else, they issue the same write, the
/// one the decision table gives.
pub proof fn lemma_write_depends_on_verdict_and_state(
    verdict: Verdict,
    a: Seq<ReadOutcome>,
    i: int,
    b: Seq<ReadOutcome>,
    j: int,
    current: RouteState,
)
    requires
        0 <= i < a.len(),
        0 <= j < b.len(),
        a[i] == Ok::<RouteState, crate::model::ReadError>(current),
        b[j] == Ok::<RouteState, crate::model::ReadError>(current),
    ensures
        pass_writes(verdict, a)[i] == decide_spec(verdict, current),
        pass_writes(verdict, b)[j] == pass_writes(verdict, a)[i],
{
}

/// A second pass under the same verdict, over routes that nothing changed
/// since the first, writes nothing.
pub proof fn lemma_second_pass_writes_nothing(verdict: Verdict, states: Seq<RouteState>)
    ensures
        after_pass(verdict, states).len() == states.len(),
        forall|i: int| 0 <= i < states.len()
            ==> (#[trigger] pass_writes(verdict, read_all(after_pass(verdict, states)))[i]).is_none(),
        after_pass(verdict, after_pass(verdict, states)) == after_pass(verdict, states),
{
    let s1 = after_pass(verdict, states);
    assert forall|i: int| 0 <= i < states.len() implies s1[i] == desired_spec(verdict) by {
        assert(read_all(states)[i] == Ok::<RouteState, crate::model::ReadError>(states[i]));
    }
    assert forall|i: int| 0 <= i < states.len()
        implies (#[trigger] pass_writes(verdict, read_all(s1))[i]).is_none() by {
        assert(read_all(s1)[i] == Ok::<RouteState, crate::model::ReadError>(s1[i]));
    }
    assert(after_pass(verdict, s1) =~= s1);
}

/// Under the verdicts up, down, up, routes that start enabled see two writes
/// each: nothing in the first pass, a disable in the second after a read that
/// showed them enabled, an enable in the third after a read that showed them
/// disabled.
pub proof fn lemma_up_down_up_writes_twice(states: Seq<RouteState>)
    requires
        forall|i: int| 0 <= i < states.len() ==> states[i] == RouteState::Enabled,
    ensures
        ({
            let s1 = after_pass(Verdict::Up, states);
            let s2 = after_pass(Verdict::Down, s1);
            forall|i: int| 0 <= i < states.len() ==> {
                &&& (#[trigger] pass_writes(Verdict::Up, read_all(states))[i]).is_none()
                &&& read_all(s1)[i] == Ok::<RouteState, crate::model::ReadError>(RouteState::Enabled)
                &&& pass_writes(Verdict::Down, read_all(s1))[i] == Some(RouteState::Disabled)
                &&& read_all(s2)[i] == Ok::<RouteState, crate::model::ReadError>(RouteState::Disabled)
                &&& pass_writes(Verdict::Up, read_all(s2))[i] == Some(RouteState::Enabled)
            }
        }),
{
    let s1 = after_pass(Verdict::Up, states);
    let s2 = after_pass(Verdict::Down, s1);
    assert forall|i: int| 0 <= i < states.len() implies {
        &&& (#[trigger] pass_writes(Verdict::Up, read_all(states))[i]).is_none()
        &&& read_all(s1)[i] == Ok::<RouteState, crate::model::ReadError>(RouteState::Enabled)
        &&& pass_writes(Verdict::Down, read_all(s1))[i] == Some(RouteState::Disabled)
        &&& read_all(s2)[i] == Ok::<RouteState, crate::model::ReadError>(RouteState::Disabled)
        &&& pass_writes(Verdict::Up, read_all(s2))[i] == Some(RouteState::Enabled)
    } by {
        assert(read_all(states)[i] == Ok::<RouteState, crate::model::ReadError>(states[i]));
        assert(s1[i] == RouteState::Enabled);
        assert(read_all(s1)[i] == Ok::<RouteState, crate::model::ReadError>(s1[i]));
        assert(s2[i] == RouteState::Disabled);
        assert(read_all(s2)[i] == Ok::<RouteState, crate::model::ReadError>(s2[i]));
    }
}

/// A route whose read failed makes the pass fail, and leaves every other
/// route's write as the decision table gives it.
pub proof fn lemma_failed_read_isolated(verdict: Verdict, outcomes: Seq<ReadOutcome>, a: int, b: int)
    requires
        0 <= a < outcomes.len(),
        0 <= b < outcomes.len(),
        a != b,
        outcomes[a] is Err,
    ensures
        pass_writes(verdict, outcomes)[a].is_none(),
        pass_writes(verdict, outcomes)[b] == write_for(verdict, outcomes[b]),
        outcomes[b] matches Ok(current) ==> pass_writes(verdict, outcomes)[b] == decide_spec(verdict, current),
        pass_result(outcomes) is Err,
{
    lemma_error_found(outcomes, a);
}

proof fn lemma_error_found(outcomes: Seq<ReadOutcome>, a: int)
    requires
        0 <= a < outcomes.len(),
        outcomes[a] is Err,
    ensures
        first_error(outcomes) is Some,
    decreases outcomes.len(),
{
    if a < outcomes.len() - 1 {
        lemma_error_found(outcomes.drop_last(), a);
    }
}

/// A probe that could not be started leads to the same write as a `Down` verdict.
pub proof fn lemma_launch_failure_acts_as_down(current: RouteState)
    ensures
        verdict_spec(ProbeOutcome::LaunchFailed) == Verdict::Down,
        decide_spec(verdict_spec(ProbeOutcome::LaunchFailed), current) == decide_spec(Verdict::Down, current),
{
}

} // verus!
