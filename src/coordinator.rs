use vstd::prelude::*;

use crate::power::DesiredPowerState;

verus! {

/// How an attempt to take the sleep-delay inhibitor ended.
#[derive(Clone, Copy, Debug, PartialEq, Eq, Structural)]
pub enum InhibitOutcome {
    /// The lock is held; the caller keeps its descriptor.
    Acquired,
    /// The power manager rejected the method call: recoverable.
    Denied,
    /// Any other bus failure: fatal to the cycle.
    BusFailed,
}

/// How the race between building a scope unit and the cycle's cancellation
/// signal ended.
#[derive(Clone, Copy, Debug, PartialEq, Eq, Structural)]
pub enum BuildOutcome {
    /// The unit's start job was removed; its placeholder process has this id.
    Built(u32),
    /// The cancellation signal fired first; the attempt was abandoned.
    Cancelled,
    /// Spawning the placeholder or a bus call failed.
    Failed,
}

/// What the caller reports back to the coordinator.
#[derive(Clone, Copy, Debug, PartialEq, Eq, Structural)]
pub enum Event {
    /// A new cycle starts with this snapshot of the desired state.
    Begin(DesiredPowerState),
    /// The inhibitor request has answered.
    Inhibited(InhibitOutcome),
    /// The scope construction race has ended.
    Built(BuildOutcome),
    /// Teardown of the scope unit has ended, successfully or not.
    Stopped(bool),
    /// The held inhibitor descriptor has been closed.
    Released,
}

/// Why a cycle ends in a fatal error.
#[derive(Clone, Copy, Debug, PartialEq, Eq, Structural)]
pub enum CycleError {
    /// A bus failure while taking the inhibitor.
    Bus,
    /// The scope unit could not be started.
    StartScope,
    /// The scope unit could not be stopped.
    StopScope,
}

/// What the coordinator asks the caller to do next.
#[derive(Clone, Copy, Debug, PartialEq, Eq, Structural)]
pub enum Step {
    /// Ask the power manager for a delay inhibitor.
    AcquireInhibitor,
    /// Build a scope unit, racing the construction against cancellation.
    StartScope,
    /// Tear down the scope unit whose placeholder process has this id, to
    /// completion, whatever cancellation says.
    StopScope(u32),
    /// Close the held inhibitor descriptor.
    ReleaseInhibitor,
    /// The cycle's work is done: wait for the desired state to change.
    Done,
    /// The cycle failed: drop the connections and start over.
    Fail(CycleError),
    /// The event was not one the current phase waits for; nothing changes.
    Ignored,
}

/// Where the current cycle stands.
#[derive(Clone, Copy, Debug, PartialEq, Eq, Structural)]
pub enum Phase {
    /// No work outstanding: a cycle may begin.
    Idle,
    /// Waiting for the inhibitor request.
    Inhibiting,
    /// Waiting for the scope construction race.
    Building,
    /// Waiting for teardown of the unit whose placeholder has this id.
    TearingDown(u32),
    /// Waiting for the inhibitor descriptor to be closed.
    Releasing,
}

/// The state of the coordinator loop and of the scope settler it drives.
#[derive(Clone, Copy, Debug, PartialEq, Eq, Structural)]
pub struct Coordinator {
    pub phase: Phase,
    /// Whether a delay inhibitor is held.
    pub inhibitor_held: bool,
    /// The placeholder process id of the current scope unit, if one exists.
    pub scope: Option<u32>,
}

/// The number of scope units that exist or are being built or torn down.
pub open spec fn live_units(c: Coordinator) -> nat {
    (if c.scope is Some { 1nat } else { 0nat }) + match c.phase {
        Phase::Building => 1nat,
        Phase::TearingDown(_) => 1nat,
        _ => 0nat,
    }
}

/// The state invariant: at most one scope unit alive, none kept while one is
/// being built or torn down, and nothing to release without an inhibitor.
pub open spec fn well_formed(c: Coordinator) -> bool {
    &&& live_units(c) <= 1
    &&& c.phase == Phase::Releasing ==> c.inhibitor_held
    &&& c.phase == Phase::Inhibiting ==> !c.inhibitor_held
}

/// After the Sleep-direction settle: release a held inhibitor, else finish.
pub open spec fn after_sleep_settle(c: Coordinator) -> (Coordinator, Step) {
    if c.inhibitor_held {
        (Coordinator { phase: Phase::Releasing, ..c }, Step::ReleaseInhibitor)
    } else {
        (Coordinator { phase: Phase::Idle, ..c }, Step::Done)
    }
}

/// The Run-direction settle: tear down the current unit if there is one.
pub open spec fn settle_run(c: Coordinator) -> (Coordinator, Step) {
    match c.scope {
        Some(pid) => (Coordinator { phase: Phase::TearingDown(pid), scope: None, ..c }, Step::StopScope(pid)),
        None => (Coordinator { phase: Phase::Idle, ..c }, Step::Done),
    }
}

/// The Sleep-direction settle: build a unit unless one exists.
pub open spec fn settle_sleep(c: Coordinator) -> (Coordinator, Step) {
    match c.scope {
        None => (Coordinator { phase: Phase::Building, ..c }, Step::StartScope),
        Some(_) => after_sleep_settle(c),
    }
}

/// The transition relation of the coordinator: the next state and the step
/// asked of the caller, for each state and event.
pub open spec fn next(c: Coordinator, e: Event) -> (Coordinator, Step) {
    match (c.phase, e) {
        (Phase::Idle, Event::Begin(DesiredPowerState::Run)) => {
            if c.inhibitor_held {
                settle_run(c)
            } else {
                (Coordinator { phase: Phase::Inhibiting, ..c }, Step::AcquireInhibitor)
            }
        },
        (Phase::Idle, Event::Begin(DesiredPowerState::Sleep)) => settle_sleep(c),
        (Phase::Inhibiting, Event::Inhibited(InhibitOutcome::Acquired)) => settle_run(
            Coordinator { inhibitor_held: true, ..c },
        ),
        (Phase::Inhibiting, Event::Inhibited(InhibitOutcome::Denied)) => settle_run(c),
        (Phase::Inhibiting, Event::Inhibited(InhibitOutcome::BusFailed)) => (
            Coordinator { phase: Phase::Idle, ..c },
            Step::Fail(CycleError::Bus),
        ),
        (Phase::Building, Event::Built(BuildOutcome::Built(pid))) => after_sleep_settle(
            Coordinator { scope: Some(pid), ..c },
        ),
        (Phase::Building, Event::Built(BuildOutcome::Cancelled)) => after_sleep_settle(c),
        (Phase::Building, Event::Built(BuildOutcome::Failed)) => (
            Coordinator { phase: Phase::Idle, ..c },
            Step::Fail(CycleError::StartScope),
        ),
        (Phase::TearingDown(_), Event::Stopped(ok)) => (
            Coordinator { phase: Phase::Idle, ..c },
            if ok { Step::Done } else { Step::Fail(CycleError::StopScope) },
        ),
        (Phase::Releasing, Event::Released) => (
            Coordinator { phase: Phase::Idle, inhibitor_held: false, ..c },
            Step::Done,
        ),
        _ => (c, Step::Ignored),
    }
}

/// The state reached from `c` through the events of `evs`, in order.
pub open spec fn run_events(c: Coordinator, evs: Seq<Event>) -> Coordinator
    decreases evs.len(),
{
    if evs.len() == 0 {
        c
    } else {
        run_events(next(c, evs[0]).0, evs.drop_first())
    }
}

/// One transition keeps the invariant, and a construction is only asked for
/// when no scope unit is alive.
pub proof fn lemma_next_well_formed(c: Coordinator, e: Event)
    requires
        well_formed(c),
    ensures
        well_formed(next(c, e).0),
        next(c, e).1 == Step::StartScope ==> live_units(c) == 0,
{
}

/// Whatever sleep and wake announcements arrive, and whatever the outside
/// work reports, no more than one scope unit is ever alive.
pub proof fn lemma_at_most_one_unit(c: Coordinator, evs: Seq<Event>)
    requires
        well_formed(c),
    ensures
        well_formed(run_events(c, evs)),
        live_units(run_events(c, evs)) <= 1,
    decreases evs.len(),
{
    if evs.len() > 0 {
        lemma_next_well_formed(c, evs[0]);
        lemma_at_most_one_unit(next(c, evs[0]).0, evs.drop_first());
    }
}

/// A construction abandoned on cancellation records no scope unit, and the
/// next sleep announcement builds a fresh one.
pub proof fn lemma_cancelled_build(c: Coordinator)
    requires
        well_formed(c),
        c.phase == Phase::Building,
    ensures
        ({
            let (c1, s1) = next(c, Event::Built(BuildOutcome::Cancelled));
            let c2 = if s1 == Step::ReleaseInhibitor {
                next(c1, Event::Released).0
            } else {
                c1
            };
            &&& c1.scope is None
            &&& s1 == Step::ReleaseInhibitor || s1 == Step::Done
            &&& c2.phase == Phase::Idle
            &&& c2.scope is None
            &&& next(c2, Event::Begin(DesiredPowerState::Sleep)).1 == Step::StartScope
        }),
{
}

/// Teardown is never cut short: while it is outstanding every report but
/// its own end is ignored (a sleep announcement starts no construction),
/// and a successful end leaves no scope unit.
pub proof fn lemma_teardown_runs_to_end(c: Coordinator, e: Event)
    requires
        well_formed(c),
        c.phase is TearingDown,
    ensures
        !(e is Stopped) ==> next(c, e) == (c, Step::Ignored),
        next(c, Event::Stopped(true)).1 == Step::Done,
        next(c, Event::Stopped(true)).0.phase == Phase::Idle,
        next(c, Event::Stopped(true)).0.scope is None,
{
}

/// A denied inhibitor only skips the lock: the Run-direction settle goes on
/// exactly as it would have with the lock held.
pub proof fn lemma_denial_still_settles(c: Coordinator)
    requires
        well_formed(c),
        c.phase == Phase::Inhibiting,
    ensures
        next(c, Event::Inhibited(InhibitOutcome::Denied)).1 == next(
            c,
            Event::Inhibited(InhibitOutcome::Acquired),
        ).1,
        next(c, Event::Inhibited(InhibitOutcome::Denied)).1 == settle_run(c).1,
        !next(c, Event::Inhibited(InhibitOutcome::Denied)).0.inhibitor_held,
{
}

/// A sleep cycle whose construction succeeds, followed by a run cycle whose
/// teardown succeeds, leaves no scope unit and the inhibitor as the second
/// request left it: from a state at rest in Run, the same state again when
/// the request is answered as before, and no lock at all when it is denied.
pub proof fn lemma_round_trip(c: Coordinator, pid: u32, answer: InhibitOutcome)
    requires
        well_formed(c),
        c.phase == Phase::Idle,
        c.scope is None,
        answer != InhibitOutcome::BusFailed,
    ensures
        ({
            let (c1, s1) = next(c, Event::Begin(DesiredPowerState::Sleep));
            let (c2, s2) = next(c1, Event::Built(BuildOutcome::Built(pid)));
            let c3 = if c.inhibitor_held {
                next(c2, Event::Released).0
            } else {
                c2
            };
            let (c4, s4) = next(c3, Event::Begin(DesiredPowerState::Run));
            let (c5, s5) = next(c4, Event::Inhibited(answer));
            let (c6, s6) = next(c5, Event::Stopped(true));
            &&& s1 == Step::StartScope
            &&& s2 == (if c.inhibitor_held {
                Step::ReleaseInhibitor
            } else {
                Step::Done
            })
            &&& c3.scope == Some(pid) && !c3.inhibitor_held && c3.phase == Phase::Idle
            &&& s4 == Step::AcquireInhibitor
            &&& s5 == Step::StopScope(pid)
            &&& s6 == Step::Done
            &&& c6.scope is None
            &&& c6.phase == Phase::Idle
            &&& c6.inhibitor_held == (answer == InhibitOutcome::Acquired)
            &&& (answer == InhibitOutcome::Acquired) == c.inhibitor_held ==> c6 == c
        }),
{
}

impl Coordinator {
    /// A coordinator at the start of a connection cycle: idle, with no
    /// inhibitor and no scope unit.
    pub fn new() -> (r: Coordinator)
        ensures
            r.phase == Phase::Idle,
            !r.inhibitor_held,
            r.scope is None,
            well_formed(r),
    {
        Coordinator { phase: Phase::Idle, inhibitor_held: false, scope: None }
    }

    /// Whether the cycle's cancellation signal may cut the current work short:
    /// only a scope construction is abandoned; teardown always runs to the end.
    pub fn cancellable(&self) -> (r: bool)
        ensures
            r <==> self.phase == Phase::Building,
    {
        match self.phase {
            Phase::Building => true,
            _ => false,
        }
    }

    fn finish_sleep_settle(&mut self) -> (r: Step)
        ensures
            (*final(self), r) == after_sleep_settle(*old(self)),
    {
        if self.inhibitor_held {
            self.phase = Phase::Releasing;
            Step::ReleaseInhibitor
        } else {
            self.phase = Phase::Idle;
            Step::Done
        }
    }

    fn run_settle(&mut self) -> (r: Step)
        ensures
            (*final(self), r) == settle_run(*old(self)),
    {
        match self.scope {
            Some(pid) => {
                self.phase = Phase::TearingDown(pid);
                self.scope = None;
                Step::StopScope(pid)
            },
            None => {
                self.phase = Phase::Idle;
                Step::Done
            },
        }
    }

    fn sleep_settle(&mut self) -> (r: Step)
        ensures
            (*final(self), r) == settle_sleep(*old(self)),
    {
        match self.scope {
            None => {
                self.phase = Phase::Building;
                Step::StartScope
            },
            Some(_) => self.finish_sleep_settle(),
        }
    }

    /// Takes the caller's report and moves the coordinator on, returning the
    /// next piece of work. An event the current phase does not wait for
    /// changes nothing and returns `Ignored`.
    pub fn step(&mut self, e: Event) -> (r: Step)
        ensures
            (*final(self), r) == next(*old(self), e),
    {
        match (self.phase, e) {
            (Phase::Idle, Event::Begin(DesiredPowerState::Run)) => {
                if self.inhibitor_held {
                    self.run_settle()
                } else {
                    self.phase = Phase::Inhibiting;
                    Step::AcquireInhibitor
                }
            },
            (Phase::Idle, Event::Begin(DesiredPowerState::Sleep)) => self.sleep_settle(),
            (Phase::Inhibiting, Event::Inhibited(InhibitOutcome::Acquired)) => {
                self.inhibitor_held = true;
                self.run_settle()
            },
            (Phase::Inhibiting, Event::Inhibited(InhibitOutcome::Denied)) => self.run_settle(),
            (Phase::Inhibiting, Event::Inhibited(InhibitOutcome::BusFailed)) => {
                self.phase = Phase::Idle;
                Step::Fail(CycleError::Bus)
            },
            (Phase::Building, Event::Built(BuildOutcome::Built(pid))) => {
                self.scope = Some(pid);
                self.finish_sleep_settle()
            },
            (Phase::Building, Event::Built(BuildOutcome::Cancelled)) => self.finish_sleep_settle(),
            (Phase::Building, Event::Built(BuildOutcome::Failed)) => {
                self.phase = Phase::Idle;
                Step::Fail(CycleError::StartScope)
            },
            (Phase::TearingDown(_), Event::Stopped(ok)) => {
                self.phase = Phase::Idle;
                if ok {
                    Step::Done
                } else {
                    Step::Fail(CycleError::StopScope)
                }
            },
            (Phase::Releasing, Event::Released) => {
                self.phase = Phase::Idle;
                self.inhibitor_held = false;
                Step::Done
            },
            _ => Step::Ignored,
        }
    }
}

} // verus!
