use vstd::prelude::*;
use crate::model::{Verdict, RouteState, ReadError};
use crate::decision::{decide, decide_spec};

verus! {

/// What reading one route gave: its state, or why it could not be read.
pub type ReadOutcome = Result<RouteState, ReadError>;

/// The write that a pass issues for a route after reading `outcome`: the
/// decision table's where the read succeeded, none where it failed.
pub open spec fn write_for(verdict: Verdict, outcome: ReadOutcome) -> Option<RouteState> {
    match outcome {
        Ok(current) => decide_spec(verdict, current),
        Err(_) => None,
    }
}

/// The writes of a pass whose reads gave `outcomes`, one slot per route.
pub open spec fn pass_writes(verdict: Verdict, outcomes: Seq<ReadOutcome>) -> Seq<Option<RouteState>> {
    outcomes.map_values(|o: ReadOutcome| write_for(verdict, o))
}

/// The earliest read error among `outcomes`, if any.
pub open spec fn first_error(outcomes: Seq<ReadOutcome>) -> Option<ReadError>
    decreases outcomes.len(),
{
    if outcomes.len() == 0 {
        None
    } else {
        match first_error(outcomes.drop_last()) {
            Some(e) => Some(e),
            None => match outcomes.last() {
                Ok(_) => None,
                Err(e) => Some(e),
            },
        }
    }
}

/// What a pass whose reads gave `outcomes` reports: success where every read
/// succeeded, else the first read error.
pub open spec fn pass_result(outcomes: Seq<ReadOutcome>) -> Result<(), ReadError> {
    match first_error(outcomes) {
        Some(e) => Err(e),
        None => Ok(()),
    }
}

/// What a pass asks of the program that runs it.
#[derive(Clone, Copy, Debug)]
pub enum PassStep {
    /// Read the state of the route at this index and hand it to `on_read`.
    Read(usize),
    /// Every route was handled; this is the pass's result.
    Finished(Result<(), ReadError>),
}

/// One reconciliation pass over the routes of a WAN under one verdict.
///
/// The program around it reads each route when asked, hands the outcome to
/// `on_read`, and issues the write that comes back, if any. A failed read
/// skips that route's write and nothing else.
pub struct ReconcilePass {
    verdict: Verdict,
    route_count: usize,
    next: usize,
    first: Option<ReadError>,
    outcomes: Ghost<Seq<ReadOutcome>>,
}

impl ReconcilePass {
    /// The verdict that the pass applies to every route.
    pub closed spec fn spec_verdict(&self) -> Verdict {
        self.verdict
    }

    /// How many routes the pass goes through.
    pub closed spec fn spec_route_count(&self) -> nat {
        self.route_count as nat
    }

    /// The outcomes of the reads handed in so far, in route order.
    pub closed spec fn spec_outcomes(&self) -> Seq<ReadOutcome> {
        self.outcomes@
    }

    pub closed spec fn wf(&self) -> bool {
        &&& self.next as nat == self.outcomes@.len()
        &&& self.next <= self.route_count
        &&& self.first == first_error(self.outcomes@)
    }

    /// A pass over `route_count` routes that has read none yet.
    pub fn start(verdict: Verdict, route_count: usize) -> (r: ReconcilePass)
        ensures
            r.wf(),
            r.spec_verdict() == verdict,
            r.spec_route_count() == route_count,
            r.spec_outcomes() == Seq::<ReadOutcome>::empty(),
    {
        ReconcilePass { verdict, route_count, next: 0, first: None, outcomes: Ghost(Seq::empty()) }
    }

    /// The verdict that the pass applies.
    pub fn verdict(&self) -> (r: Verdict)
        ensures
            r == self.spec_verdict(),
    {
        self.verdict
    }

    /// The next thing to do: read the next route, or report the result.
    pub fn next_step(&self) -> (r: PassStep)
        requires
            self.wf(),
        ensures
            self.spec_outcomes().len() < self.spec_route_count()
                ==> r == PassStep::Read(self.spec_outcomes().len() as usize),
            self.spec_outcomes().len() == self.spec_route_count()
                ==> r == PassStep::Finished(pass_result(self.spec_outcomes())),
    {
        if self.next < self.route_count {
            PassStep::Read(self.next)
        } else {
            match self.first {
                Some(e) => PassStep::Finished(Err(e)),
                None => PassStep::Finished(Ok(())),
            }
        }
    }

    /// Takes the outcome of reading the route that `next_step` asked for, and
    /// returns the state to write to that route, if any.
    pub fn on_read(&mut self, outcome: ReadOutcome) -> (r: Option<RouteState>)
        requires
            old(self).wf(),
            old(self).spec_outcomes().len() < old(self).spec_route_count(),
        ensures
            final(self).wf(),
            final(self).spec_verdict() == old(self).spec_verdict(),
            final(self).spec_route_count() == old(self).spec_route_count(),
            final(self).spec_outcomes() == old(self).spec_outcomes().push(outcome),
            r == write_for(old(self).spec_verdict(), outcome),
    {
        let ghost prev = self.outcomes@;
        let ghost now = prev.push(outcome);
        assert(now.drop_last() =~= prev);
        self.outcomes = Ghost(now);
        self.next = self.next + 1;
        match outcome {
            Ok(current) => decide(self.verdict, current),
            Err(e) => {
                if self.first.is_none() {
                    self.first = Some(e);
                }
                None
            },
        }
    }
}

} // verus!
