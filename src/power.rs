use vstd::prelude::*;

verus! {

/// The power state the host asks for.
#[derive(Clone, Copy, Debug, PartialEq, Eq, Structural)]
pub enum DesiredPowerState {
    Run,
    Sleep,
}

impl DesiredPowerState {
    /// The state named by a preparing-for-sleep flag.
    pub open spec fn from_flag(start: bool) -> DesiredPowerState {
        if start {
            DesiredPowerState::Sleep
        } else {
            DesiredPowerState::Run
        }
    }

    /// Maps the flag of a sleep announcement, or of the preparing-for-sleep
    /// property, to the state it asks for: `true` asks for sleep.
    pub fn from_prepare_for_sleep(start: bool) -> (r: DesiredPowerState)
        ensures
            r == DesiredPowerState::from_flag(start),
            start <==> r == DesiredPowerState::Sleep,
    {
        if start {
            DesiredPowerState::Sleep
        } else {
            DesiredPowerState::Run
        }
    }
}

/// What the background listener does with one wake-up.
#[derive(Clone, Copy, Debug, PartialEq, Eq, Structural)]
pub enum ListenerStep {
    /// Overwrite the shared cell with this state and keep listening.
    Publish(DesiredPowerState),
    /// End the listener without error.
    Stop,
}

impl ListenerStep {
    /// Decides the listener's next move. `observers_gone` tells that every
    /// reader dropped its handle; `announcement` is the next delivery of the
    /// signal stream, `None` once the stream has ended. Each delivery is
    /// published, whether or not it differs from the cell's value.
    pub fn on_wake(observers_gone: bool, announcement: Option<bool>) -> (r: ListenerStep)
        ensures
            observers_gone ==> r == ListenerStep::Stop,
            !observers_gone && announcement is None ==> r == ListenerStep::Stop,
            !observers_gone && announcement is Some ==> r == ListenerStep::Publish(
                DesiredPowerState::from_flag(announcement->Some_0),
            ),
    {
        if observers_gone {
            return ListenerStep::Stop;
        }
        match announcement {
            None => ListenerStep::Stop,
            Some(start) => ListenerStep::Publish(DesiredPowerState::from_prepare_for_sleep(start)),
        }
    }
}

} // verus!
