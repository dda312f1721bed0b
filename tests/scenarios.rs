use systemd_user_sleep::{
    BuildOutcome, Coordinator, DesiredPowerState, Event, InhibitOutcome, ListenerStep, Step,
    ScopeRequest,
};

#[test]
fn graphical_target_sleep_and_wake() {
    let activate = vec![String::from("graphical-target")];
    let mut c = Coordinator::new();
    assert_eq!(c.step(Event::Begin(DesiredPowerState::Run)), Step::AcquireInhibitor);
    assert_eq!(c.step(Event::Inhibited(InhibitOutcome::Acquired)), Step::Done);

    let sleep = DesiredPowerState::from_prepare_for_sleep(true);
    assert_eq!(sleep, DesiredPowerState::Sleep);
    assert_eq!(c.step(Event::Begin(sleep)), Step::StartScope);
    let req = ScopeRequest::for_process(&activate, 321);
    assert_eq!(req.name, "systemd-user-sleep-321.scope");
    assert_eq!(req.mode, "replace");
    assert_eq!(req.wants, vec![String::from("graphical-target")]);
    assert_eq!(req.after, vec![String::from("graphical-target")]);
    assert_eq!(req.collect_mode, "inactive-or-failed");
    assert_eq!(req.pids, vec![321]);
    // The inhibitor stays held until the Sleep-direction settle has returned.
    assert!(c.inhibitor_held);
    assert_eq!(c.step(Event::Built(BuildOutcome::Built(321))), Step::ReleaseInhibitor);
    assert_eq!(c.step(Event::Released), Step::Done);
    assert!(!c.inhibitor_held);

    let wake = DesiredPowerState::from_prepare_for_sleep(false);
    assert_eq!(wake, DesiredPowerState::Run);
    assert_eq!(c.step(Event::Begin(wake)), Step::AcquireInhibitor);
    assert_eq!(c.step(Event::Inhibited(InhibitOutcome::Acquired)), Step::StopScope(321));
    assert_eq!(c.step(Event::Stopped(true)), Step::Done);
    assert_eq!(c.scope, None);
}

#[test]
fn denied_inhibit_proceeds_to_settle_run() {
    let mut c = Coordinator::new();
    assert_eq!(c.step(Event::Begin(DesiredPowerState::Run)), Step::AcquireInhibitor);
    let step = c.step(Event::Inhibited(InhibitOutcome::Denied));
    assert_eq!(step, Step::Done);
    assert!(!c.inhibitor_held);
}

#[test]
fn disconnect_stops_listener_and_fresh_cycle_resyncs() {
    // The signal stream ends on a bus disconnect: the listener stops, the
    // cycle fails, and a new cycle starts from a fresh coordinator seeded by
    // the re-queried property.
    assert_eq!(ListenerStep::on_wake(false, None), ListenerStep::Stop);
    let mut c = Coordinator::new();
    let initial = DesiredPowerState::from_prepare_for_sleep(true);
    assert_eq!(c.step(Event::Begin(initial)), Step::StartScope);
}

#[test]
fn listener_publishes_every_delivery() {
    assert_eq!(ListenerStep::on_wake(false, Some(true)), ListenerStep::Publish(DesiredPowerState::Sleep));
    assert_eq!(ListenerStep::on_wake(false, Some(false)), ListenerStep::Publish(DesiredPowerState::Run));
    assert_eq!(ListenerStep::on_wake(false, Some(false)), ListenerStep::Publish(DesiredPowerState::Run));
    assert_eq!(ListenerStep::on_wake(true, Some(true)), ListenerStep::Stop);
}
