use wan_failover::{
    decide, desired_state, verdict_from_probe, PassStep, ProbeOutcome, ReadError, ReadOutcome,
    ReconcilePass, RouteState, Verdict, WanInterface,
};

/// A router held in memory: each route's state, or the error its read gives.
struct FakeRouter {
    routes: Vec<(String, Result<RouteState, ReadError>)>,
    reads: Vec<String>,
    writes: Vec<(String, RouteState)>,
}

impl FakeRouter {
    fn new(routes: &[(&str, Result<RouteState, ReadError>)]) -> FakeRouter {
        FakeRouter {
            routes: routes.iter().map(|(n, s)| (n.to_string(), *s)).collect(),
            reads: Vec::new(),
            writes: Vec::new(),
        }
    }

    fn read(&mut self, label: &str) -> ReadOutcome {
        self.reads.push(label.to_string());
        self.routes.iter().find(|(n, _)| n == label).map(|(_, s)| *s).unwrap()
    }

    fn write(&mut self, label: &str, state: RouteState) {
        self.writes.push((label.to_string(), state));
        for (n, s) in self.routes.iter_mut() {
            if n == label {
                *s = Ok(state);
            }
        }
    }

    fn state(&self, label: &str) -> Result<RouteState, ReadError> {
        self.routes.iter().find(|(n, _)| n == label).map(|(_, s)| *s).unwrap()
    }
}

fn wan(name: &str, routes: &[&str]) -> WanInterface {
    WanInterface::new(
        name.to_string(),
        "vlan50".to_string(),
        routes.iter().map(|r| r.to_string()).collect(),
    )
    .unwrap()
}

fn reconcile(router: &mut FakeRouter, wan: &WanInterface, verdict: Verdict) -> Result<(), ReadError> {
    let mut pass = ReconcilePass::start(verdict, wan.routes.len());
    loop {
        match pass.next_step() {
            PassStep::Read(i) => {
                let label = wan.routes[i].clone();
                let outcome = router.read(&label);
                if let Some(state) = pass.on_read(outcome) {
                    router.write(&label, state);
                }
            }
            PassStep::Finished(result) => return result,
        }
    }
}

#[test]
fn decision_table_cases() {
    assert_eq!(decide(Verdict::Up, RouteState::Disabled), Some(RouteState::Enabled));
    assert_eq!(decide(Verdict::Up, RouteState::Enabled), None);
    assert_eq!(decide(Verdict::Down, RouteState::Enabled), Some(RouteState::Disabled));
    assert_eq!(decide(Verdict::Down, RouteState::Disabled), None);
    assert_eq!(desired_state(Verdict::Up), RouteState::Enabled);
    assert_eq!(desired_state(Verdict::Down), RouteState::Disabled);
}

#[test]
fn write_ignores_position_and_neighbours() {
    let mut a = ReconcilePass::start(Verdict::Down, 3);
    assert_eq!(a.on_read(Err(ReadError::Receive)), None);
    assert_eq!(a.on_read(Ok(RouteState::Disabled)), None);
    assert_eq!(a.on_read(Ok(RouteState::Enabled)), Some(RouteState::Disabled));
    let mut b = ReconcilePass::start(Verdict::Down, 1);
    assert_eq!(b.on_read(Ok(RouteState::Enabled)), Some(RouteState::Disabled));
}

#[test]
fn second_pass_writes_nothing() {
    let mut router = FakeRouter::new(&[
        ("R1", Ok(RouteState::Disabled)),
        ("R2", Ok(RouteState::Enabled)),
    ]);
    let w = wan("WAN 1", &["R1", "R2"]);
    assert_eq!(reconcile(&mut router, &w, Verdict::Up), Ok(()));
    assert_eq!(router.writes, vec![("R1".to_string(), RouteState::Enabled)]);
    assert_eq!(reconcile(&mut router, &w, Verdict::Up), Ok(()));
    assert_eq!(router.writes.len(), 1);
    assert_eq!(router.reads.len(), 4);
}

#[test]
fn up_down_up_writes_twice() {
    let mut router = FakeRouter::new(&[("R1", Ok(RouteState::Enabled))]);
    let w = wan("WAN 1", &["R1"]);
    assert_eq!(reconcile(&mut router, &w, Verdict::Up), Ok(()));
    assert!(router.writes.is_empty());
    assert_eq!(reconcile(&mut router, &w, Verdict::Down), Ok(()));
    assert_eq!(router.state("R1"), Ok(RouteState::Disabled));
    assert_eq!(reconcile(&mut router, &w, Verdict::Up), Ok(()));
    assert_eq!(
        router.writes,
        vec![("R1".to_string(), RouteState::Disabled), ("R1".to_string(), RouteState::Enabled)]
    );
    assert_eq!(router.reads.len(), 3);
}

#[test]
fn failed_read_does_not_stop_other_routes() {
    let mut router = FakeRouter::new(&[
        ("A", Err(ReadError::Dispatch)),
        ("B", Ok(RouteState::Disabled)),
    ]);
    let w = wan("WAN 2", &["A", "B"]);
    assert_eq!(reconcile(&mut router, &w, Verdict::Up), Err(ReadError::Dispatch));
    assert_eq!(router.reads, vec!["A".to_string(), "B".to_string()]);
    assert_eq!(router.writes, vec![("B".to_string(), RouteState::Enabled)]);
}

#[test]
fn first_read_error_is_reported() {
    let mut pass = ReconcilePass::start(Verdict::Up, 3);
    pass.on_read(Err(ReadError::ChannelOpen));
    pass.on_read(Ok(RouteState::Enabled));
    assert!(matches!(pass.next_step(), PassStep::Read(2)));
    pass.on_read(Err(ReadError::Receive));
    assert!(matches!(pass.next_step(), PassStep::Finished(Err(ReadError::ChannelOpen))));
}

#[test]
fn launch_failure_counts_as_down() {
    assert_eq!(verdict_from_probe(ProbeOutcome::LaunchFailed), Verdict::Down);
    assert_eq!(verdict_from_probe(ProbeOutcome::Completed { success: false }), Verdict::Down);
    assert_eq!(verdict_from_probe(ProbeOutcome::Completed { success: true }), Verdict::Up);
    let mut router = FakeRouter::new(&[("R1", Ok(RouteState::Enabled))]);
    let w = wan("WAN 3", &["R1"]);
    let verdict = verdict_from_probe(ProbeOutcome::LaunchFailed);
    assert_eq!(reconcile(&mut router, &w, verdict), Ok(()));
    assert_eq!(router.writes, vec![("R1".to_string(), RouteState::Disabled)]);
}

#[test]
fn down_disables_both_enabled_routes() {
    let mut router = FakeRouter::new(&[
        ("R1", Ok(RouteState::Enabled)),
        ("R2", Ok(RouteState::Enabled)),
    ]);
    let w = wan("WAN 3", &["R1", "R2"]);
    assert_eq!(reconcile(&mut router, &w, Verdict::Down), Ok(()));
    assert_eq!(router.reads, vec!["R1".to_string(), "R2".to_string()]);
    assert_eq!(
        router.writes,
        vec![("R1".to_string(), RouteState::Disabled), ("R2".to_string(), RouteState::Disabled)]
    );
}

#[test]
fn unparseable_state_skips_write_and_next_wan_runs() {
    let mut router = FakeRouter::new(&[
        ("R1", wan_failover::parse_disabled_flag("maybe")),
        ("R2", Ok(RouteState::Disabled)),
    ]);
    let first = wan("WAN 1", &["R1"]);
    let second = wan("WAN 2", &["R2"]);
    assert_eq!(reconcile(&mut router, &first, Verdict::Up), Err(ReadError::Unrecognized));
    assert!(router.writes.is_empty());
    assert_eq!(reconcile(&mut router, &second, Verdict::Up), Ok(()));
    assert_eq!(router.writes, vec![("R2".to_string(), RouteState::Enabled)]);
}

#[test]
fn empty_pass_succeeds_at_once() {
    let pass = ReconcilePass::start(Verdict::Down, 0);
    assert!(matches!(pass.next_step(), PassStep::Finished(Ok(()))));
    assert_eq!(pass.verdict(), Verdict::Down);
}

#[test]
fn wan_needs_a_route() {
    assert!(WanInterface::new("W".to_string(), "vlan51".to_string(), Vec::new()).is_none());
    let w = wan("W", &["Invitados 1", "Invitados 2"]);
    assert_eq!(w.name, "W");
    assert_eq!(w.probe_interface, "vlan50");
    assert_eq!(w.routes.len(), 2);
}
