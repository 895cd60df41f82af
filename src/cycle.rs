use vstd::prelude::*;
use crate::commands::{
    FIRST_SAMPLE_MILLIS, READ_MEASUREMENT, SETTLE_MILLIS, START_PERIODIC_MESUREMENT,
    STOP_PERIODIC_MEASUREMENT,
};
use crate::conversion::{checksums_match, checksums_valid, parse_response, parse_spec, RawReading};

verus! {

/// The step of a sampling cycle that is to be performed next.
#[derive(Clone, Copy, Debug, PartialEq, Eq, Structural)]
pub enum Step {
    /// Send the stop-periodic-measurement command.
    StopPeriodic,
    /// Let the sensor settle after the mode change.
    Settle,
    /// Send the start-periodic-measurement command.
    StartPeriodic,
    /// Wait until the first sample is ready.
    AwaitSample,
    /// Send the read-measurement command and read the nine-byte answer.
    ReadMeasurement,
}

/// A bus transaction or a delay that the caller is to perform.
#[derive(Clone, Copy, Debug, PartialEq, Eq)]
pub enum BusAction {
    /// Write the two command bytes to the sensor.
    Write([u8; 2]),
    /// Wait this many milliseconds.
    DelayMillis(u64),
    /// Write the two command bytes, then read nine bytes back.
    WriteRead([u8; 2]),
}

/// Why a bus transaction failed.
#[derive(Clone, Copy, Debug, PartialEq, Eq, Structural)]
pub enum BusError {
    /// The sensor did not acknowledge its address or a byte.
    NoAcknowledge,
    /// The transaction did not complete in time.
    Timeout,
    /// Fewer bytes were transferred than asked for.
    ShortTransfer,
    /// The answer did not carry the checksums of its words (reported only
    /// where checksum validation is on).
    ChecksumMismatch,
    /// Any other fault that the bus reported.
    Other,
}

/// What came of the action that the caller performed.
#[derive(Clone, Copy, Debug, PartialEq, Eq)]
pub enum BusEvent {
    /// A write or a delay completed.
    Done,
    /// A write-read completed with these bytes.
    Received([u8; 9]),
    /// The bus transaction failed.
    Failed(BusError),
}

/// What a completed step produced.
#[derive(Clone, Copy, Debug, PartialEq, Eq, Structural)]
pub enum CycleOutcome {
    /// The cycle goes on with its next step.
    InProgress,
    /// The cycle ended with a reading; the next cycle starts over.
    Sampled(RawReading),
    /// The step failed; the next cycle starts over from the stop command.
    Failed(BusError, Step),
}

/// The action that performs a step.
pub open spec fn action_spec(step: Step) -> BusAction {
    match step {
        Step::StopPeriodic => BusAction::Write(STOP_PERIODIC_MEASUREMENT),
        Step::Settle => BusAction::DelayMillis(SETTLE_MILLIS),
        Step::StartPeriodic => BusAction::Write(START_PERIODIC_MESUREMENT),
        Step::AwaitSample => BusAction::DelayMillis(FIRST_SAMPLE_MILLIS),
        Step::ReadMeasurement => BusAction::WriteRead(READ_MEASUREMENT),
    }
}

/// The step that follows `step` when it completed.
pub open spec fn successor(step: Step) -> Step {
    match step {
        Step::StopPeriodic => Step::Settle,
        Step::Settle => Step::StartPeriodic,
        Step::StartPeriodic => Step::AwaitSample,
        Step::AwaitSample => Step::ReadMeasurement,
        Step::ReadMeasurement => Step::StopPeriodic,
    }
}

/// The next step and the outcome when `event` ends `step`. A failure at any
/// step starts the cycle over; a read that returned no bytes counts as a short
/// transfer; with `validate` on, an answer whose checksums do not match counts
/// as a failed read; bytes that arrive for a step that reads nothing count as
/// its completion.
pub open spec fn advance_spec(step: Step, validate: bool, event: BusEvent) -> (Step, CycleOutcome) {
    match event {
        BusEvent::Failed(e) => (Step::StopPeriodic, CycleOutcome::Failed(e, step)),
        BusEvent::Received(data) => if step == Step::ReadMeasurement {
            if validate && !checksums_match(parse_spec(data@)) {
                (Step::StopPeriodic, CycleOutcome::Failed(BusError::ChecksumMismatch, step))
            } else {
                (Step::StopPeriodic, CycleOutcome::Sampled(parse_spec(data@)))
            }
        } else {
            (successor(step), CycleOutcome::InProgress)
        },
        BusEvent::Done => if step == Step::ReadMeasurement {
            (Step::StopPeriodic, CycleOutcome::Failed(BusError::ShortTransfer, step))
        } else {
            (successor(step), CycleOutcome::InProgress)
        },
    }
}

/// The decisions of one sampling cycle: stop periodic mode, wait, start it,
/// wait for the first sample, read it. Steps run strictly in that order.
/// Checksums of the answer are checked only where validation was turned on.
pub struct MeasurementCycle {
    step: Step,
    validate: bool,
}

impl MeasurementCycle {
    /// The step that is to be performed next.
    pub closed spec fn step(&self) -> Step {
        self.step
    }

    /// Whether the checksums of an answer are checked.
    pub closed spec fn validates(&self) -> bool {
        self.validate
    }

    /// A cycle that starts with the stop command and does not check checksums.
    pub fn new() -> (r: Self)
        ensures
            r.step() == Step::StopPeriodic,
            !r.validates(),
    {
        MeasurementCycle { step: Step::StopPeriodic, validate: false }
    }

    /// Turns checksum validation on or off; the step stays.
    pub fn set_checksum_validation(&mut self, on: bool)
        ensures
            final(self).validates() == on,
            final(self).step() == old(self).step(),
    {
        self.validate = on;
    }

    /// The step that is to be performed next.
    pub fn current_step(&self) -> (r: Step)
        ensures
            r == self.step(),
    {
        self.step
    }

    /// What the caller is to do for the current step.
    pub fn next_action(&self) -> (r: BusAction)
        ensures
            r == action_spec(self.step()),
    {
        match self.step {
            Step::StopPeriodic => BusAction::Write(STOP_PERIODIC_MEASUREMENT),
            Step::Settle => BusAction::DelayMillis(SETTLE_MILLIS),
            Step::StartPeriodic => BusAction::Write(START_PERIODIC_MESUREMENT),
            Step::AwaitSample => BusAction::DelayMillis(FIRST_SAMPLE_MILLIS),
            Step::ReadMeasurement => BusAction::WriteRead(READ_MEASUREMENT),
        }
    }

    /// Takes what came of the current step's action and moves on.
    pub fn advance(&mut self, event: BusEvent) -> (r: CycleOutcome)
        ensures
            (final(self).step(), r) == advance_spec(old(self).step(), old(self).validates(), event),
            final(self).validates() == old(self).validates(),
    {
        let step = self.step;
        let (next, outcome) = match event {
            BusEvent::Failed(e) => (Step::StopPeriodic, CycleOutcome::Failed(e, step)),
            BusEvent::Received(data) => match step {
                Step::ReadMeasurement => {
                    let raw = parse_response(&data);
                    if self.validate && !checksums_valid(&raw) {
                        (Step::StopPeriodic, CycleOutcome::Failed(BusError::ChecksumMismatch, step))
                    } else {
                        (Step::StopPeriodic, CycleOutcome::Sampled(raw))
                    }
                },
                _ => (next_step(step), CycleOutcome::InProgress),
            },
            BusEvent::Done => match step {
                Step::ReadMeasurement => (
                    Step::StopPeriodic,
                    CycleOutcome::Failed(BusError::ShortTransfer, step),
                ),
                _ => (next_step(step), CycleOutcome::InProgress),
            },
        };
        self.step = next;
        outcome
    }
}

fn next_step(step: Step) -> (r: Step)
    ensures
        r == successor(step),
{
    match step {
        Step::StopPeriodic => Step::Settle,
        Step::Settle => Step::StartPeriodic,
        Step::StartPeriodic => Step::AwaitSample,
        Step::AwaitSample => Step::ReadMeasurement,
        Step::ReadMeasurement => Step::StopPeriodic,
    }
}

/// A failed bus transaction, at whatever step, never ends the sampling: it is
/// reported with the step it happened at, and the next action is the stop
/// command that begins a full cycle.
pub proof fn lemma_failure_restarts(step: Step, validate: bool, e: BusError)
    ensures
        advance_spec(step, validate, BusEvent::Failed(e)).1 == CycleOutcome::Failed(e, step),
        action_spec(advance_spec(step, validate, BusEvent::Failed(e)).0)
            == BusAction::Write(STOP_PERIODIC_MEASUREMENT),
{
}

/// Steps that complete run in the fixed order stop, settle, start, wait, read,
/// and a successful read (one whose checksums match, where they are checked)
/// hands out the parsed answer and begins the next cycle with the stop command.
pub proof fn lemma_cycle_order(validate: bool, data: [u8; 9])
    ensures
        advance_spec(Step::StopPeriodic, validate, BusEvent::Done).0 == Step::Settle,
        advance_spec(Step::Settle, validate, BusEvent::Done).0 == Step::StartPeriodic,
        advance_spec(Step::StartPeriodic, validate, BusEvent::Done).0 == Step::AwaitSample,
        advance_spec(Step::AwaitSample, validate, BusEvent::Done).0 == Step::ReadMeasurement,
        !validate || checksums_match(parse_spec(data@)) ==> advance_spec(
            Step::ReadMeasurement,
            validate,
            BusEvent::Received(data),
        ) == (Step::StopPeriodic, CycleOutcome::Sampled(parse_spec(data@))),
{
}

} // verus!
