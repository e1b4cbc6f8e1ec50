//! The stream manager: when streams are built, withdrawn and rebuilt.
//!
//! The manager's thread does the work on devices; this module decides what
//! that work is. The thread hands each outcome to [`StreamManager::step`] as
//! an [`Event`] and carries out the [`Action`] that comes back. Between two
//! sleeps the manager may go through a whole reconfiguration: it tells the
//! processor that its channels are withdrawn, releases the old streams, builds
//! new ones and hands their channels over, in that order. A failure along the
//! way leaves it without streams until the next check; only an exit request,
//! or a processor that no longer listens, stops it.
//!
//! Time is a count of nanoseconds on a clock of the caller's choice.

use vstd::prelude::*;
use crate::config::{DeviceConfig, Streams};
use crate::{later, time_after};

verus! {

/// How long the manager sleeps between two iterations, in nanoseconds.
pub const UPDATE_INTERVAL: u64 = 50_000_000;

/// How long the manager waits between two looks at the devices, in
/// nanoseconds.
pub const CONFIG_CHECK_INTERVAL: u64 = 1_000_000_000;

/// The states of the manager as they show from outside.
#[derive(Clone, Copy, Debug, PartialEq, Eq, Structural)]
pub enum Phase {
    NoStreams,
    StreamsActive,
    Reconfiguring,
    Stopped,
}

/// What the manager waits for.
#[derive(Clone, Copy, Debug, PartialEq, Eq, Structural)]
pub enum Stage {
    /// For the next iteration to begin.
    Idle,
    /// For the configurations of the default devices.
    Probing,
    /// For the processor to be told that its channels are withdrawn.
    Withdrawing,
    /// For the live streams to be paused and dropped.
    Releasing,
    /// For new streams to be built.
    Building,
    /// For the new channels to be handed to the processor.
    HandingOff,
    /// For nothing any more.
    Stopped,
}

/// What the thread has to do next.
#[derive(Clone, Copy, Debug, PartialEq, Eq, Structural)]
pub enum Action {
    /// Sleep, then begin the next iteration.
    Sleep { nanoseconds: u64 },
    /// Ask the default devices for their configurations.
    ProbeConfigs,
    /// Tell the processor that its channels are withdrawn.
    Withdraw,
    /// Pause and drop the live streams.
    ReleaseStreams,
    /// Build streams and channels for the default devices.
    BuildStreams,
    /// Hand the new channels to the processor.
    HandOff,
    /// Leave the loop.
    Exit,
}

/// What the thread has found or done.
#[derive(Clone, Copy, Debug, PartialEq, Eq, Structural)]
pub enum Event {
    /// An iteration begins at `now`; `exit_requested` is the exit flag.
    Tick { now: u64, exit_requested: bool },
    /// What the default devices report; `None` for a device that is gone or
    /// that reports nothing.
    Probed { input: Option<DeviceConfig>, output: Option<DeviceConfig> },
    /// The withdrawal was sent; `delivered` unless the processor is gone.
    Withdrawn { delivered: bool },
    /// The old streams are dropped.
    Released,
    /// Streams were built for these configurations, or could not be built.
    Built { streams: Option<Streams> },
    /// The channels were sent; `delivered` unless the processor is gone.
    HandedOff { delivered: bool },
}

/// The state of the manager.
#[derive(Clone, Copy, Debug, PartialEq, Eq, Structural)]
pub struct StreamManager {
    pub stage: Stage,
    /// What the live streams were built for, if there are any.
    pub streams: Option<Streams>,
    /// The time after which the devices are looked at again.
    pub next_config_check: u64,
}

/// The action that answers a stage.
pub open spec fn awaited_action(stage: Stage) -> Action {
    match stage {
        Stage::Idle => Action::Sleep { nanoseconds: UPDATE_INTERVAL },
        Stage::Probing => Action::ProbeConfigs,
        Stage::Withdrawing => Action::Withdraw,
        Stage::Releasing => Action::ReleaseStreams,
        Stage::Building => Action::BuildStreams,
        Stage::HandingOff => Action::HandOff,
        Stage::Stopped => Action::Exit,
    }
}

impl StreamManager {
    /// The state as it shows from outside.
    pub open spec fn phase(self) -> Phase {
        match self.stage {
            Stage::Stopped => Phase::Stopped,
            Stage::Idle | Stage::Probing => if self.streams is Some {
                Phase::StreamsActive
            } else {
                Phase::NoStreams
            },
            _ => Phase::Reconfiguring,
        }
    }

    /// Streams are live while they are looked at, released or handed off, and
    /// none is live while new ones are built.
    pub open spec fn is_valid(self) -> bool {
        &&& self.stage == Stage::Probing ==> self.streams is Some
        &&& self.stage == Stage::Releasing ==> self.streams is Some
        &&& self.stage == Stage::HandingOff ==> self.streams is Some
        &&& self.stage == Stage::Building ==> self.streams is None
    }

    /// The state that an event leads to. An event that does not answer what
    /// the manager waits for changes nothing.
    pub open spec fn after(self, event: Event) -> StreamManager {
        match (self.stage, event) {
            (Stage::Idle, Event::Tick { now, exit_requested }) => if exit_requested {
                StreamManager { stage: Stage::Stopped, ..self }
            } else if now > self.next_config_check {
                StreamManager {
                    stage: if self.streams is Some {
                        Stage::Probing
                    } else {
                        Stage::Withdrawing
                    },
                    next_config_check: later(now, CONFIG_CHECK_INTERVAL),
                    ..self
                }
            } else {
                self
            },
            (Stage::Probing, Event::Probed { input, output }) => if self.streams is Some
                && self.streams->Some_0.changed_by(input, output) {
                StreamManager { stage: Stage::Withdrawing, ..self }
            } else {
                StreamManager { stage: Stage::Idle, ..self }
            },
            (Stage::Withdrawing, Event::Withdrawn { delivered }) => if !delivered {
                StreamManager { stage: Stage::Stopped, ..self }
            } else if self.streams is Some {
                StreamManager { stage: Stage::Releasing, ..self }
            } else {
                StreamManager { stage: Stage::Building, ..self }
            },
            (Stage::Releasing, Event::Released) => StreamManager {
                stage: Stage::Building,
                streams: None,
                ..self
            },
            (Stage::Building, Event::Built { streams }) => if streams is Some {
                StreamManager { stage: Stage::HandingOff, streams, ..self }
            } else {
                StreamManager { stage: Stage::Idle, streams: None, ..self }
            },
            (Stage::HandingOff, Event::HandedOff { delivered }) => if delivered {
                StreamManager { stage: Stage::Idle, ..self }
            } else {
                StreamManager { stage: Stage::Stopped, ..self }
            },
            _ => self,
        }
    }

    /// A manager without streams that looks at the devices as soon as an
    /// iteration begins after `now`.
    pub fn new(now: u64) -> (manager: StreamManager)
        ensures
            manager == (StreamManager {
                stage: Stage::Idle,
                streams: None,
                next_config_check: now,
            }),
            manager.is_valid(),
            manager.phase() == Phase::NoStreams,
    {
        StreamManager { stage: Stage::Idle, streams: None, next_config_check: now }
    }

    /// Takes in what the thread has found or done, and says what it has to do
    /// next.
    pub fn step(&mut self, event: Event) -> (action: Action)
        ensures
            *final(self) == old(self).after(event),
            action == awaited_action(final(self).stage),
            old(self).is_valid() ==> final(self).is_valid(),
    {
        match (self.stage, event) {
            (Stage::Idle, Event::Tick { now, exit_requested }) => {
                if exit_requested {
                    self.stage = Stage::Stopped;
                } else if now > self.next_config_check {
                    self.next_config_check = time_after(now, CONFIG_CHECK_INTERVAL);
                    self.stage = match self.streams {
                        Some(_) => Stage::Probing,
                        None => Stage::Withdrawing,
                    };
                }
            },
            (Stage::Probing, Event::Probed { input, output }) => {
                let changed = match self.streams {
                    Some(streams) => streams.config_change_detected(input, output),
                    None => false,
                };
                self.stage = if changed {
                    Stage::Withdrawing
                } else {
                    Stage::Idle
                };
            },
            (Stage::Withdrawing, Event::Withdrawn { delivered }) => {
                self.stage = if !delivered {
                    Stage::Stopped
                } else {
                    match self.streams {
                        Some(_) => Stage::Releasing,
                        None => Stage::Building,
                    }
                };
            },
            (Stage::Releasing, Event::Released) => {
                self.streams = None;
                self.stage = Stage::Building;
            },
            (Stage::Building, Event::Built { streams }) => {
                self.stage = match streams {
                    Some(_) => Stage::HandingOff,
                    None => Stage::Idle,
                };
                self.streams = streams;
            },
            (Stage::HandingOff, Event::HandedOff { delivered }) => {
                self.stage = if delivered {
                    Stage::Idle
                } else {
                    Stage::Stopped
                };
            },
            _ => {},
        }
        self.awaited()
    }

    /// The action that the manager waits for the outcome of.
    pub fn awaited(&self) -> (action: Action)
        ensures
            action == awaited_action(self.stage),
    {
        match self.stage {
            Stage::Idle => Action::Sleep { nanoseconds: UPDATE_INTERVAL },
            Stage::Probing => Action::ProbeConfigs,
            Stage::Withdrawing => Action::Withdraw,
            Stage::Releasing => Action::ReleaseStreams,
            Stage::Building => Action::BuildStreams,
            Stage::HandingOff => Action::HandOff,
            Stage::Stopped => Action::Exit,
        }
    }

    /// The state as it shows from outside.
    pub fn current_phase(&self) -> (phase: Phase)
        ensures
            phase == self.phase(),
    {
        match self.stage {
            Stage::Stopped => Phase::Stopped,
            Stage::Idle | Stage::Probing => match self.streams {
                Some(_) => Phase::StreamsActive,
                None => Phase::NoStreams,
            },
            _ => Phase::Reconfiguring,
        }
    }
}

/// Every step keeps the state valid.
pub proof fn lemma_steps_keep_validity(manager: StreamManager, event: Event)
    requires
        manager.is_valid(),
    ensures
        manager.after(event).is_valid(),
{
}

/// At most one pair of streams is live at a time: new streams are built only
/// when none is live, and the live ones are released only after the
/// processor was told that its channels are withdrawn.
pub proof fn lemma_one_pair_of_streams_at_a_time(manager: StreamManager, event: Event)
    requires
        manager.is_valid(),
    ensures
        awaited_action(manager.after(event).stage) == Action::BuildStreams ==> manager.after(
            event,
        ).streams is None,
        manager.stage != Stage::Releasing && manager.after(event).stage == Stage::Releasing
            ==> manager.stage == Stage::Withdrawing && event == (Event::Withdrawn {
            delivered: true,
        }),
        manager.stage != Stage::Building && manager.after(event).stage == Stage::Building ==> {
            ||| manager.stage == Stage::Releasing && event == Event::Released
            ||| manager.stage == Stage::Withdrawing && manager.streams is None && event == (
            Event::Withdrawn { delivered: true })
        },
        manager.stage != Stage::HandingOff && manager.after(event).stage == Stage::HandingOff
            ==> manager.stage == Stage::Building && event == (Event::Built {
            streams: manager.after(event).streams,
        }),
{
}

/// Where the devices report something else than the live streams were built
/// for, one iteration that is due for a look brings new streams: the manager
/// probes, withdraws, releases, builds and hands off without a sleep in
/// between, and ends with the new configurations and a sleep.
pub proof fn lemma_changed_devices_are_followed(
    manager: StreamManager,
    now: u64,
    input: Option<DeviceConfig>,
    output: Option<DeviceConfig>,
    rebuilt: Streams,
)
    requires
        manager.stage == Stage::Idle,
        manager.streams is Some,
        now > manager.next_config_check,
        manager.streams->Some_0.changed_by(input, output),
    ensures
        ({
            let probing = manager.after(Event::Tick { now, exit_requested: false });
            let withdrawing = probing.after(Event::Probed { input, output });
            let releasing = withdrawing.after(Event::Withdrawn { delivered: true });
            let building = releasing.after(Event::Released);
            let handing_off = building.after(Event::Built { streams: Some(rebuilt) });
            let settled = handing_off.after(Event::HandedOff { delivered: true });
            &&& awaited_action(probing.stage) == Action::ProbeConfigs
            &&& awaited_action(withdrawing.stage) == Action::Withdraw
            &&& awaited_action(releasing.stage) == Action::ReleaseStreams
            &&& awaited_action(building.stage) == Action::BuildStreams
            &&& building.streams is None
            &&& awaited_action(handing_off.stage) == Action::HandOff
            &&& awaited_action(settled.stage) == (Action::Sleep { nanoseconds: UPDATE_INTERVAL })
            &&& settled.streams == Some(rebuilt)
            &&& settled.phase() == Phase::StreamsActive
            &&& settled.next_config_check == later(now, CONFIG_CHECK_INTERVAL)
        }),
{
}

/// A manager without streams tries to build some at every iteration that is
/// due for a look, and stays without streams, and alive, where that fails.
pub proof fn lemma_failed_builds_are_tried_again(manager: StreamManager, now: u64)
    requires
        manager.stage == Stage::Idle,
        manager.streams is None,
        now > manager.next_config_check,
    ensures
        ({
            let withdrawing = manager.after(Event::Tick { now, exit_requested: false });
            let building = withdrawing.after(Event::Withdrawn { delivered: true });
            let settled = building.after(Event::Built { streams: None });
            &&& awaited_action(withdrawing.stage) == Action::Withdraw
            &&& awaited_action(building.stage) == Action::BuildStreams
            &&& awaited_action(settled.stage) == (Action::Sleep { nanoseconds: UPDATE_INTERVAL })
            &&& settled.phase() == Phase::NoStreams
            &&& settled.next_config_check == later(now, CONFIG_CHECK_INTERVAL)
        }),
{
}

/// An exit request is obeyed at the beginning of the next iteration, and a
/// stopped manager stays stopped.
pub proof fn lemma_exit_is_final(manager: StreamManager, now: u64, event: Event)
    ensures
        manager.stage == Stage::Idle ==> manager.after(
            Event::Tick { now, exit_requested: true },
        ).stage == Stage::Stopped,
        manager.stage == Stage::Stopped ==> manager.after(event) == manager,
        awaited_action(Stage::Stopped) == Action::Exit,
{
}

/// Whether an event is an outcome of the action that a stage waits for.
pub open spec fn answers(event: Event, stage: Stage) -> bool {
    match (stage, event) {
        (Stage::Idle, Event::Tick { .. }) => true,
        (Stage::Probing, Event::Probed { .. }) => true,
        (Stage::Withdrawing, Event::Withdrawn { .. }) => true,
        (Stage::Releasing, Event::Released) => true,
        (Stage::Building, Event::Built { .. }) => true,
        (Stage::HandingOff, Event::HandedOff { .. }) => true,
        _ => false,
    }
}

/// The largest number of actions that still lie between a stage and the next
/// sleep or the exit.
pub open spec fn actions_before_rest(stage: Stage) -> nat {
    match stage {
        Stage::Idle => 0,
        Stage::Stopped => 0,
        Stage::HandingOff => 1,
        Stage::Building => 2,
        Stage::Releasing => 3,
        Stage::Withdrawing => 4,
        Stage::Probing => 5,
    }
}

/// No iteration goes on for ever: every outcome of the action that the
/// manager waits for brings it nearer to its sleep or to its exit, so that it
/// looks at the exit flag again after five actions and one sleep at most.
pub proof fn lemma_every_iteration_comes_to_rest(manager: StreamManager, event: Event)
    requires
        manager.stage != Stage::Idle,
        manager.stage != Stage::Stopped,
        answers(event, manager.stage),
    ensures
        actions_before_rest(manager.after(event).stage) < actions_before_rest(manager.stage),
{
}

} // verus!
