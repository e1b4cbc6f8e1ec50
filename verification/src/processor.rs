//! The processor's loop: its cadence, its channels and what it reports.
//!
//! The processor handles a fixed number of frames per update at a fixed
//! rate, whatever the devices do. Its thread wakes once per update, takes the
//! newest channels that the stream manager handed over, reads one update of
//! input, runs the processor on it unless the channel was not fed yet, and
//! pushes the result. It never waits on a channel: it only sleeps until the
//! next deadline.
//!
//! Time is a count of nanoseconds on a clock of the caller's choice.

use vstd::prelude::*;
use crate::error::{Error, StreamLink};
use crate::{later, time_after};
use crate::status::{
    input_received, input_received_of, push_report, push_report_of, read_report, read_report_of,
    PushStatus, ReadStatus,
};

verus! {

/// The number of nanoseconds in a second.
pub const NANOSECONDS_PER_SECOND: u64 = 1_000_000_000;

/// The time that `frames` frames take at `sample_rate`, in whole nanoseconds.
pub open spec fn update_interval_of(frames: nat, sample_rate: nat) -> nat {
    ((frames * NANOSECONDS_PER_SECOND) / (sample_rate as int)) as nat
}

/// The time left until `deadline`, none if it has passed.
pub open spec fn time_until(deadline: u64, now: u64) -> u64 {
    if deadline > now {
        (deadline - now) as u64
    } else {
        0
    }
}

/// The deadlines of the processor's updates.
///
/// Each deadline lies one interval after the one before it, not one interval
/// after the moment at which the thread happened to wake, so that a late
/// wake-up shortens the next sleep instead of delaying all that follows.
#[derive(Clone, Copy, Debug, PartialEq, Eq, Structural)]
pub struct Pacer {
    pub interval: u64,
    pub deadline: u64,
}

impl Pacer {
    /// The pacer after `updates` more updates.
    pub open spec fn after_updates(self, updates: nat) -> Pacer
        decreases updates,
    {
        if updates == 0 {
            self
        } else {
            let earlier = self.after_updates((updates - 1) as nat);
            Pacer { deadline: later(earlier.deadline, earlier.interval), ..earlier }
        }
    }

    /// A pacer for updates of `frames_per_update` frames at `sample_rate`,
    /// whose first update is under way at `start`.
    pub fn new(start: u64, frames_per_update: u32, sample_rate: u32) -> (pacer: Pacer)
        requires
            sample_rate > 0,
        ensures
            pacer.deadline == start,
            pacer.interval == update_interval_of(frames_per_update as nat, sample_rate as nat),
    {
        assert(frames_per_update * NANOSECONDS_PER_SECOND <= 0xffff_ffff * 1_000_000_000)
            by (nonlinear_arith)
            requires
                frames_per_update <= 0xffff_ffff,
                NANOSECONDS_PER_SECOND == 1_000_000_000,
        ;
        let interval: u64 = frames_per_update as u64 * NANOSECONDS_PER_SECOND / sample_rate as u64;
        Pacer { interval, deadline: start }
    }

    /// Ends an update at `now`: moves the deadline on by one interval and
    /// says how long to sleep until then.
    pub fn advance(&mut self, now: u64) -> (wait: u64)
        ensures
            *final(self) == old(self).after_updates(1),
            final(self).interval == old(self).interval,
            final(self).deadline == later(old(self).deadline, old(self).interval),
            wait == time_until(final(self).deadline, now),
    {
        assert(self.after_updates(1) == (Pacer {
            deadline: later(self.deadline, self.interval),
            ..*self
        })) by {
            assert(self.after_updates(0) == *self);
        }
        self.deadline = time_after(self.deadline, self.interval);
        if self.deadline > now {
            self.deadline - now
        } else {
            0
        }
    }
}

/// Deadlines do not drift: after any number of updates the deadline lies that
/// many intervals after the first one, whenever the thread woke in between.
pub proof fn lemma_deadlines_do_not_drift(pacer: Pacer, updates: nat)
    requires
        pacer.deadline + updates * pacer.interval <= u64::MAX,
    ensures
        pacer.after_updates(updates).deadline == pacer.deadline + updates * pacer.interval,
        pacer.after_updates(updates).interval == pacer.interval,
    decreases updates,
{
    if updates > 0 {
        let fewer = (updates - 1) as nat;
        let interval = pacer.interval as int;
        assert(updates * interval == fewer * interval + interval) by (nonlinear_arith)
            requires
                fewer == updates - 1,
        ;
        assert(fewer * interval >= 0) by (nonlinear_arith)
            requires
                interval >= 0,
        ;
        lemma_deadlines_do_not_drift(pacer, fewer);
        let earlier = pacer.after_updates(fewer);
        assert(pacer.after_updates(updates) == (Pacer {
            deadline: later(earlier.deadline, earlier.interval),
            ..earlier
        }));
    } else {
        assert(updates * pacer.interval == 0) by (nonlinear_arith)
            requires
                updates == 0,
        ;
    }
}

/// A sleep never lasts longer than one interval, as long as the clock has
/// reached the deadline before: a thread that sleeps is back within one
/// update to see an exit request.
pub proof fn lemma_sleep_is_at_most_one_interval(pacer: Pacer, now: u64)
    requires
        now >= pacer.deadline,
    ensures
        time_until(pacer.after_updates(1).deadline, now) <= pacer.interval,
{
    assert(pacer.after_updates(0) == pacer);
}

/// A sleep that lasts as long as it was asked to ends at its deadline or
/// later, and the sleep after it is then no longer than one interval: with a
/// clock that does not run backwards and sleeps that do not end early, every
/// sleep of the loop stays within one interval.
pub proof fn lemma_full_sleeps_stay_within_one_interval(pacer: Pacer, asleep: u64, awake: u64)
    requires
        awake >= asleep + time_until(pacer.after_updates(1).deadline, asleep),
    ensures
        awake >= pacer.after_updates(1).deadline,
        time_until(pacer.after_updates(2).deadline, awake) <= pacer.interval,
{
    assert(pacer.after_updates(0) == pacer);
    let first = pacer.after_updates(1);
    assert(first == (Pacer { deadline: later(pacer.deadline, pacer.interval), ..pacer }));
    assert(pacer.after_updates(2) == (Pacer {
        deadline: later(first.deadline, first.interval),
        ..first
    }));
}

/// The channels that the processor holds after the stream manager's updates
/// arrived in the order of `updates`: those of the newest update, or none if
/// that withdrew them; those it `held` if no update arrived.
pub open spec fn held_after<C>(held: Option<C>, updates: Seq<Option<C>>) -> Option<C> {
    if updates.len() == 0 {
        held
    } else {
        updates.last()
    }
}

/// Takes the newest of the stream manager's updates, so that the processor
/// never holds more than one pair of channels.
pub fn latest_handoff<C>(held: Option<C>, updates: Vec<Option<C>>) -> (now_held: Option<C>)
    ensures
        now_held == held_after(held, updates@),
{
    let mut updates = updates;
    match updates.pop() {
        Some(newest) => newest,
        None => held,
    }
}

/// Taking updates one by one as they arrive leads to the same channels as
/// taking the newest of them all at once.
pub proof fn lemma_handoffs_may_be_taken_in_turn<C>(
    held: Option<C>,
    earlier: Seq<Option<C>>,
    newest: Option<C>,
)
    ensures
        held_after(held_after(held, earlier), seq![newest]) == held_after(
            held,
            earlier.push(newest),
        ),
        held_after(held, earlier.push(None::<C>)) == None::<C>,
{
}

/// What the processor's thread does after it read one update of input.
#[derive(Debug, PartialEq, Eq)]
pub struct InputDecision {
    /// Whether the processor runs on the buffer and its result is pushed.
    pub process: bool,
    /// What to report to the stream manager, if anything.
    pub report: Option<Error>,
}

/// Decides what follows a read of the input channel: the processor runs
/// unless the channel was not fed yet, and lost or discarded frames are
/// reported.
pub fn on_input(status: ReadStatus) -> (decision: InputDecision)
    ensures
        decision.process == input_received_of(status),
        decision.report == read_report_of(StreamLink::InputToProcessor, status),
{
    InputDecision {
        process: input_received(status),
        report: read_report(StreamLink::InputToProcessor, status),
    }
}

/// Decides what follows a push into the output channel: a channel that is
/// not drained yet is passed over, and lost or padded frames are reported.
pub fn on_output(status: PushStatus) -> (report: Option<Error>)
    ensures
        report == push_report_of(StreamLink::ProcessorToOutput, status),
{
    push_report(StreamLink::ProcessorToOutput, status)
}

/// What the stream manager's updates did to the processor's channels since
/// the iteration before.
#[derive(Clone, Copy, Debug, PartialEq, Eq, Structural)]
pub enum Handoff {
    /// No update arrived.
    Unchanged,
    /// The newest update withdrew the channels.
    Withdrawn,
    /// The newest update brought channels.
    Replaced,
}

/// What a run of updates amounts to.
pub open spec fn handoff_of<C>(updates: Seq<Option<C>>) -> Handoff {
    if updates.len() == 0 {
        Handoff::Unchanged
    } else if updates.last() is Some {
        Handoff::Replaced
    } else {
        Handoff::Withdrawn
    }
}

/// Sums up the updates that arrived, oldest first.
pub fn summarize_handoffs<C>(updates: &Vec<Option<C>>) -> (handoff: Handoff)
    ensures
        handoff == handoff_of(updates@),
{
    let count = updates.len();
    if count == 0 {
        Handoff::Unchanged
    } else {
        match &updates[count - 1] {
            Some(_) => Handoff::Replaced,
            None => Handoff::Withdrawn,
        }
    }
}

/// Says what a single update amounts to, for a thread that takes the updates
/// in as they arrive: the last one taken in decides.
pub fn handoff_for<C>(update: &Option<C>) -> (handoff: Handoff)
    ensures
        handoff == handoff_of(seq![*update]),
{
    match update {
        Some(_) => Handoff::Replaced,
        None => Handoff::Withdrawn,
    }
}

/// Of a run of updates the newest alone decides what they amount to and what
/// the processor holds, so that taking them in one by one and keeping what
/// the last of them brought is the same as looking at the whole run.
pub proof fn lemma_newest_update_decides<C>(held: Option<C>, updates: Seq<Option<C>>)
    requires
        updates.len() > 0,
    ensures
        handoff_of(updates) == handoff_of(seq![updates.last()]),
        held_after(held, updates) == updates.last(),
        (handoff_of(updates) == Handoff::Replaced) == (held_after(held, updates) is Some),
{
    assert(seq![updates.last()].last() == updates.last());
}

/// What the loop waits for.
#[derive(Clone, Copy, Debug, PartialEq, Eq, Structural)]
pub enum LoopStage {
    /// For the sleep to end and the next iteration to begin.
    Waking,
    /// For one update of input to be read.
    Reading,
    /// For the processor to have run on the buffer.
    Processing,
    /// For the buffer to be pushed to the output.
    Pushing,
    /// For the time.
    Pacing,
    /// For nothing any more.
    Stopped,
}

/// What the thread has to do next.
#[derive(Clone, Copy, Debug, PartialEq, Eq, Structural)]
pub enum LoopAction {
    /// Sleep, then take the stream manager's updates and begin an iteration.
    Sleep { nanoseconds: u64 },
    /// Read one update of frames from the input channel into the buffer.
    ReadInput,
    /// Run the processor on the buffer.
    Process,
    /// Push the buffer into the output channel.
    PushOutput,
    /// Look at the clock.
    CheckClock,
    /// Leave the loop.
    Exit,
}

/// What the thread has found or done.
#[derive(Clone, Copy, Debug, PartialEq, Eq, Structural)]
pub enum LoopEvent {
    /// An iteration begins; `exit_requested` is the exit flag, `handoff` what
    /// became of the channels.
    Woke { exit_requested: bool, handoff: Handoff },
    /// The input channel was read.
    Read { status: ReadStatus },
    /// The processor has run.
    Processed,
    /// The buffer was pushed to the output channel.
    Pushed { status: PushStatus },
    /// The clock shows `now`.
    Clock { now: u64 },
}

/// The state of the processor's loop.
#[derive(Clone, Copy, Debug, PartialEq, Eq, Structural)]
pub struct ProcessorLoop {
    pub stage: LoopStage,
    /// Whether the thread holds channels at the moment.
    pub holds_channels: bool,
    pub pacer: Pacer,
    /// The length of the sleep that ends the iteration, once it is known.
    pub sleep: u64,
}

/// What the loop hands back for an event.
#[derive(Debug, PartialEq, Eq)]
pub struct LoopStep {
    pub action: LoopAction,
    /// What to report to the stream manager, if anything.
    pub report: Option<Error>,
}

impl ProcessorLoop {
    /// The action that the loop waits for the outcome of.
    pub open spec fn awaited(self) -> LoopAction {
        match self.stage {
            LoopStage::Waking => LoopAction::Sleep { nanoseconds: self.sleep },
            LoopStage::Reading => LoopAction::ReadInput,
            LoopStage::Processing => LoopAction::Process,
            LoopStage::Pushing => LoopAction::PushOutput,
            LoopStage::Pacing => LoopAction::CheckClock,
            LoopStage::Stopped => LoopAction::Exit,
        }
    }

    /// The state that an event leads to. An event that does not answer what
    /// the loop waits for changes nothing.
    pub open spec fn after(self, event: LoopEvent) -> ProcessorLoop {
        match (self.stage, event) {
            (LoopStage::Waking, LoopEvent::Woke { exit_requested, handoff }) => if exit_requested {
                ProcessorLoop { stage: LoopStage::Stopped, ..self }
            } else {
                let holds_channels = match handoff {
                    Handoff::Unchanged => self.holds_channels,
                    Handoff::Withdrawn => false,
                    Handoff::Replaced => true,
                };
                ProcessorLoop {
                    stage: if holds_channels {
                        LoopStage::Reading
                    } else {
                        LoopStage::Pacing
                    },
                    holds_channels,
                    ..self
                }
            },
            (LoopStage::Reading, LoopEvent::Read { status }) => ProcessorLoop {
                stage: if input_received_of(status) {
                    LoopStage::Processing
                } else {
                    LoopStage::Pacing
                },
                ..self
            },
            (LoopStage::Processing, LoopEvent::Processed) => ProcessorLoop {
                stage: LoopStage::Pushing,
                ..self
            },
            (LoopStage::Pushing, LoopEvent::Pushed { status }) => ProcessorLoop {
                stage: LoopStage::Pacing,
                ..self
            },
            (LoopStage::Pacing, LoopEvent::Clock { now }) => {
                let pacer = self.pacer.after_updates(1);
                ProcessorLoop {
                    stage: LoopStage::Waking,
                    pacer,
                    sleep: time_until(pacer.deadline, now),
                    ..self
                }
            },
            _ => self,
        }
    }

    /// What an event gives cause to report.
    pub open spec fn report_on(self, event: LoopEvent) -> Option<Error> {
        match (self.stage, event) {
            (LoopStage::Reading, LoopEvent::Read { status }) => read_report_of(
                StreamLink::InputToProcessor,
                status,
            ),
            (LoopStage::Pushing, LoopEvent::Pushed { status }) => push_report_of(
                StreamLink::ProcessorToOutput,
                status,
            ),
            _ => None,
        }
    }

    /// A loop without channels whose first iteration begins at once, for
    /// updates of `frames_per_update` frames at `sample_rate`, on a clock that
    /// shows `start`.
    pub fn new(start: u64, frames_per_update: u32, sample_rate: u32) -> (state: ProcessorLoop)
        requires
            sample_rate > 0,
        ensures
            state.stage == LoopStage::Waking,
            !state.holds_channels,
            state.sleep == 0,
            state.pacer.deadline == start,
            state.pacer.interval == update_interval_of(
                frames_per_update as nat,
                sample_rate as nat,
            ),
    {
        ProcessorLoop {
            stage: LoopStage::Waking,
            holds_channels: false,
            pacer: Pacer::new(start, frames_per_update, sample_rate),
            sleep: 0,
        }
    }

    /// Takes in what the thread has found or done, and says what it has to do
    /// next and what it has to report.
    pub fn step(&mut self, event: LoopEvent) -> (step: LoopStep)
        ensures
            *final(self) == old(self).after(event),
            step.action == final(self).awaited(),
            step.report == old(self).report_on(event),
    {
        let mut report: Option<Error> = None;
        match (self.stage, event) {
            (LoopStage::Waking, LoopEvent::Woke { exit_requested, handoff }) => {
                if exit_requested {
                    self.stage = LoopStage::Stopped;
                } else {
                    match handoff {
                        Handoff::Unchanged => {},
                        Handoff::Withdrawn => {
                            self.holds_channels = false;
                        },
                        Handoff::Replaced => {
                            self.holds_channels = true;
                        },
                    }
                    self.stage = if self.holds_channels {
                        LoopStage::Reading
                    } else {
                        LoopStage::Pacing
                    };
                }
            },
            (LoopStage::Reading, LoopEvent::Read { status }) => {
                let decision = on_input(status);
                report = decision.report;
                self.stage = if decision.process {
                    LoopStage::Processing
                } else {
                    LoopStage::Pacing
                };
            },
            (LoopStage::Processing, LoopEvent::Processed) => {
                self.stage = LoopStage::Pushing;
            },
            (LoopStage::Pushing, LoopEvent::Pushed { status }) => {
                report = on_output(status);
                self.stage = LoopStage::Pacing;
            },
            (LoopStage::Pacing, LoopEvent::Clock { now }) => {
                let mut pacer = self.pacer;
                let wait = pacer.advance(now);
                self.pacer = pacer;
                self.sleep = wait;
                self.stage = LoopStage::Waking;
            },
            _ => {},
        }
        LoopStep { action: self.next_action(), report }
    }

    /// The action that the loop waits for the outcome of.
    pub fn next_action(&self) -> (action: LoopAction)
        ensures
            action == self.awaited(),
    {
        match self.stage {
            LoopStage::Waking => LoopAction::Sleep { nanoseconds: self.sleep },
            LoopStage::Reading => LoopAction::ReadInput,
            LoopStage::Processing => LoopAction::Process,
            LoopStage::Pushing => LoopAction::PushOutput,
            LoopStage::Pacing => LoopAction::CheckClock,
            LoopStage::Stopped => LoopAction::Exit,
        }
    }
}

/// The loop holds channels exactly if the newest update brought some, or if
/// it held some and no update arrived.
pub proof fn lemma_loop_follows_the_handoffs<C>(
    state: ProcessorLoop,
    held: Option<C>,
    updates: Seq<Option<C>>,
)
    requires
        state.stage == LoopStage::Waking,
        state.holds_channels == (held is Some),
    ensures
        state.after(
            LoopEvent::Woke { exit_requested: false, handoff: handoff_of(updates) },
        ).holds_channels == (held_after(held, updates) is Some),
{
}

/// Channels change hands only where an iteration begins: from the read to
/// the sleep one iteration works on the channels that it began with.
pub proof fn lemma_channels_change_only_between_iterations(state: ProcessorLoop, event: LoopEvent)
    requires
        state.stage != LoopStage::Waking,
    ensures
        state.after(event).holds_channels == state.holds_channels,
        state.after(event).awaited() == LoopAction::ReadInput ==> state.stage
            == LoopStage::Reading,
{
}

/// An iteration with channels reads, runs the processor, pushes and sleeps
/// until the next deadline; its reports are those of the read and of the
/// push.
pub proof fn lemma_iteration_with_input(
    state: ProcessorLoop,
    handoff: Handoff,
    read: ReadStatus,
    pushed: PushStatus,
    now: u64,
)
    requires
        state.stage == LoopStage::Waking,
        handoff == Handoff::Replaced || (handoff == Handoff::Unchanged && state.holds_channels),
        input_received_of(read),
    ensures
        ({
            let reading = state.after(LoopEvent::Woke { exit_requested: false, handoff });
            let processing = reading.after(LoopEvent::Read { status: read });
            let pushing = processing.after(LoopEvent::Processed);
            let pacing = pushing.after(LoopEvent::Pushed { status: pushed });
            let waking = pacing.after(LoopEvent::Clock { now });
            &&& reading.awaited() == LoopAction::ReadInput
            &&& processing.awaited() == LoopAction::Process
            &&& reading.report_on(LoopEvent::Read { status: read }) == read_report_of(
                StreamLink::InputToProcessor,
                read,
            )
            &&& pushing.awaited() == LoopAction::PushOutput
            &&& pacing.awaited() == LoopAction::CheckClock
            &&& pushing.report_on(LoopEvent::Pushed { status: pushed }) == push_report_of(
                StreamLink::ProcessorToOutput,
                pushed,
            )
            &&& waking.pacer == state.pacer.after_updates(1)
            &&& waking.awaited() == (LoopAction::Sleep {
                nanoseconds: time_until(
                    later(state.pacer.deadline, state.pacer.interval),
                    now,
                ),
            })
            &&& waking.holds_channels
        }),
{
    assert(state.pacer.after_updates(0) == state.pacer);
}

/// An iteration that finds the input not fed yet skips the processor and the
/// push, reports nothing and sleeps until the next deadline; so does one
/// without channels, which does not even read.
pub proof fn lemma_iteration_without_input(state: ProcessorLoop, handoff: Handoff, now: u64)
    requires
        state.stage == LoopStage::Waking,
    ensures
        ({
            let begun = state.after(LoopEvent::Woke { exit_requested: false, handoff });
            let pacing = if begun.holds_channels {
                begun.after(LoopEvent::Read { status: ReadStatus::InputNotReady })
            } else {
                begun
            };
            let waking = pacing.after(LoopEvent::Clock { now });
            &&& begun.holds_channels ==> begun.awaited() == LoopAction::ReadInput
            &&& begun.report_on(LoopEvent::Read { status: ReadStatus::InputNotReady }) == None::<
                Error,
            >
            &&& pacing.awaited() == LoopAction::CheckClock
            &&& waking.pacer == state.pacer.after_updates(1)
            &&& waking.stage == LoopStage::Waking
        }),
{
    assert(state.pacer.after_updates(0) == state.pacer);
}

/// An exit request is obeyed where the next iteration would begin, and a
/// stopped loop stays stopped.
pub proof fn lemma_loop_exit_is_final(state: ProcessorLoop, handoff: Handoff, event: LoopEvent)
    ensures
        state.stage == LoopStage::Waking ==> state.after(
            LoopEvent::Woke { exit_requested: true, handoff },
        ).awaited() == LoopAction::Exit,
        state.stage == LoopStage::Stopped ==> state.after(event) == state,
{
}

/// Whether an event is an outcome of the action that a stage waits for.
pub open spec fn answers(event: LoopEvent, stage: LoopStage) -> bool {
    match (stage, event) {
        (LoopStage::Waking, LoopEvent::Woke { .. }) => true,
        (LoopStage::Reading, LoopEvent::Read { .. }) => true,
        (LoopStage::Processing, LoopEvent::Processed) => true,
        (LoopStage::Pushing, LoopEvent::Pushed { .. }) => true,
        (LoopStage::Pacing, LoopEvent::Clock { .. }) => true,
        _ => false,
    }
}

/// The largest number of actions that still lie between a stage and the next
/// sleep or the exit.
pub open spec fn actions_before_sleep(stage: LoopStage) -> nat {
    match stage {
        LoopStage::Waking => 0,
        LoopStage::Stopped => 0,
        LoopStage::Pacing => 1,
        LoopStage::Pushing => 2,
        LoopStage::Processing => 3,
        LoopStage::Reading => 4,
    }
}

/// No iteration goes on for ever: every outcome of the action that the loop
/// waits for brings it nearer to its sleep, so that it looks at the exit flag
/// again after four actions and one sleep at most, and that sleep is no
/// longer than one interval once the clock has reached the deadline before.
pub proof fn lemma_every_iteration_comes_to_sleep(state: ProcessorLoop, event: LoopEvent)
    requires
        state.stage != LoopStage::Waking,
        state.stage != LoopStage::Stopped,
        answers(event, state.stage),
    ensures
        actions_before_sleep(state.after(event).stage) < actions_before_sleep(state.stage),
        event matches LoopEvent::Clock { now } && now >= state.pacer.deadline ==> state.after(
            event,
        ).sleep <= state.pacer.interval,
{
    assert(state.pacer.after_updates(0) == state.pacer);
}

} // verus!
