use rspi_bios::shutdown::{ConnectionRegistry, Coordinator, DrainStep, Phase};

#[test]
fn registry_counts_admissions_and_closes() {
    let mut reg = ConnectionRegistry::new();
    assert_eq!(reg.open_connections(), 0);
    assert!(reg.try_admit());
    assert!(reg.try_admit());
    assert_eq!(reg.open_connections(), 2);
    reg.connection_closed();
    assert_eq!(reg.open_connections(), 1);
}

#[test]
fn draining_refuses_every_new_connection() {
    let mut reg = ConnectionRegistry::new();
    let mut coord = Coordinator::new(10_000);
    assert!(reg.try_admit());
    assert!(coord.on_signal(&mut reg));
    assert_eq!(coord.current_phase(), Phase::Draining);
    assert!(!reg.try_admit());
    assert!(!reg.try_admit());
    assert_eq!(reg.open_connections(), 1);
}

#[test]
fn a_repeated_signal_changes_nothing() {
    let mut reg = ConnectionRegistry::new();
    let mut coord = Coordinator::new(10_000);
    assert!(coord.on_signal(&mut reg));
    assert!(!coord.on_signal(&mut reg));
    assert_eq!(coord.current_phase(), Phase::Draining);
}

#[test]
fn ticks_outside_draining_do_nothing() {
    let mut reg = ConnectionRegistry::new();
    let mut coord = Coordinator::new(10_000);
    assert_eq!(coord.on_tick(&reg, 1000), DrainStep::NoChange);
    assert_eq!(coord.current_phase(), Phase::Running);
    coord.on_signal(&mut reg);
    coord.on_tick(&reg, 10_000);
    assert_eq!(coord.current_phase(), Phase::Terminated);
    assert_eq!(coord.on_tick(&reg, 1000), DrainStep::NoChange);
    assert_eq!(coord.current_phase(), Phase::Terminated);
}

#[test]
fn slow_connection_is_force_closed_when_the_grace_elapses() {
    // Grace period two seconds, one connection open and sending slowly: the
    // coordinator reports it while the grace lasts and force-closes it at
    // the deadline, terminating only then.
    let mut reg = ConnectionRegistry::new();
    let mut coord = Coordinator::new(2000);
    assert!(reg.try_admit());
    assert!(coord.on_signal(&mut reg));

    let step = coord.on_tick(&reg, 1000);
    assert_eq!(step, DrainStep::Report { open_connections: 1 });
    assert_eq!(coord.current_phase(), Phase::Draining);

    let step = coord.on_tick(&reg, 1000);
    assert_eq!(step, DrainStep::TerminateForced { open_connections: 1 });
    assert_eq!(coord.current_phase(), Phase::Terminated);

    // The force-close is then carried out and accounted.
    reg.connection_closed();
    assert_eq!(reg.open_connections(), 0);
}

#[test]
fn drain_finishes_early_once_every_connection_closes() {
    let mut reg = ConnectionRegistry::new();
    let mut coord = Coordinator::new(10_000);
    assert!(reg.try_admit());
    assert!(coord.on_signal(&mut reg));
    assert_eq!(coord.on_tick(&reg, 1000), DrainStep::Report { open_connections: 1 });
    reg.connection_closed();
    assert_eq!(coord.on_tick(&reg, 1000), DrainStep::TerminateIdle);
    assert_eq!(coord.current_phase(), Phase::Terminated);
}

#[test]
fn liveness_is_reported_once_per_interval_while_draining() {
    let mut reg = ConnectionRegistry::new();
    let mut coord = Coordinator::new(5000);
    assert!(reg.try_admit());
    assert!(reg.try_admit());
    assert!(coord.on_signal(&mut reg));
    for _ in 0..4 {
        assert_eq!(coord.on_tick(&reg, 1000), DrainStep::Report { open_connections: 2 });
    }
    assert_eq!(
        coord.on_tick(&reg, 1000),
        DrainStep::TerminateForced { open_connections: 2 }
    );
}
