//! The procedure of a factory reset, step by step.
//!
//! The caller performs each step's work (asking the user, reading, waiting,
//! writing) and reports what came of it; the functions here decide what to do
//! next. After the reset command the module stays silent until its power is
//! cycled, so a write that times out counts as done.

use crate::registers::WriteRequest;
use vstd::prelude::*;

verus! {

/// What the transport reported of a register write.
#[derive(Debug, Clone, Copy, PartialEq, Eq, Structural)]
pub enum WriteOutcome {
    /// The device acknowledged the write.
    Acknowledged,
    /// No answer came within the transport's timeout.
    TimedOut,
    /// The device refused the write, or the transport failed otherwise.
    Failed,
}

/// How a factory reset ended.
#[derive(Debug, Clone, Copy, PartialEq, Eq, Structural)]
pub enum ResetResult {
    /// The user did not agree; nothing was sent.
    Aborted,
    /// The device did not answer the read that checks the connection; nothing was sent.
    Unreachable,
    /// The reset command was sent and acknowledged or met with silence.
    Completed,
    /// The reset command was sent and failed.
    Failed,
}

/// The step of the procedure that is due.
#[derive(Debug, Clone, Copy, PartialEq, Eq, Structural)]
pub enum ResetStep {
    /// Ask the user whether to go on.
    Confirm,
    /// Read the temperatures to see that the device answers.
    CheckConnection,
    /// Wait the delay between two commands.
    Pause,
    /// Write the reset command.
    Send,
    /// Nothing is left to do.
    Done(ResetResult),
}

/// What came of a step.
#[derive(Debug, Clone, Copy, PartialEq, Eq, Structural)]
pub enum ResetEvent {
    /// The user agreed (`true`) or declined.
    Answered(bool),
    /// The read that checks the connection succeeded (`true`) or failed.
    ConnectionChecked(bool),
    /// The delay has passed.
    Paused,
    /// The reset command was written, with this outcome.
    Written(WriteOutcome),
}

impl WriteOutcome {
    /// Whether a write of the reset command with this outcome counts as
    /// done: an acknowledgement does, and so does a timeout.
    pub open spec fn spec_reset_done(self) -> bool {
        self != WriteOutcome::Failed
    }

    /// Whether a write of the reset command with this outcome counts as done.
    pub fn reset_done(&self) -> (done: bool)
        ensures
            done == self.spec_reset_done(),
    {
        match self {
            WriteOutcome::Acknowledged => true,
            WriteOutcome::TimedOut => true,
            WriteOutcome::Failed => false,
        }
    }
}

impl ResetStep {
    /// The step that follows when `event` is reported at this step. An event
    /// that is no answer to the step leaves the step as it is.
    pub open spec fn spec_next(self, event: ResetEvent) -> ResetStep {
        match (self, event) {
            (ResetStep::Confirm, ResetEvent::Answered(agreed)) => if agreed {
                ResetStep::CheckConnection
            } else {
                ResetStep::Done(ResetResult::Aborted)
            },
            (ResetStep::CheckConnection, ResetEvent::ConnectionChecked(answered)) => if answered {
                ResetStep::Pause
            } else {
                ResetStep::Done(ResetResult::Unreachable)
            },
            (ResetStep::Pause, ResetEvent::Paused) => ResetStep::Send,
            (ResetStep::Send, ResetEvent::Written(outcome)) => if outcome.spec_reset_done() {
                ResetStep::Done(ResetResult::Completed)
            } else {
                ResetStep::Done(ResetResult::Failed)
            },
            _ => self,
        }
    }

    /// The step reached from the first step when `events` are reported in order.
    pub open spec fn spec_after(events: Seq<ResetEvent>) -> ResetStep
        decreases events.len(),
    {
        if events.len() == 0 {
            ResetStep::Confirm
        } else {
            Self::spec_after(events.drop_last()).spec_next(events.last())
        }
    }

    /// Whether the reset command has been written, or is about to be, at this step.
    pub open spec fn sends(self) -> bool {
        self == ResetStep::Send || self == ResetStep::Done(ResetResult::Completed) || self
            == ResetStep::Done(ResetResult::Failed)
    }

    /// The first step: ask the user.
    pub fn start() -> (step: ResetStep)
        ensures
            step == ResetStep::Confirm,
    {
        ResetStep::Confirm
    }

    /// The step that follows when `event` is reported at this step.
    pub fn next(self, event: ResetEvent) -> (step: ResetStep)
        ensures
            step == self.spec_next(event),
    {
        match self {
            ResetStep::Confirm => match event {
                ResetEvent::Answered(true) => ResetStep::CheckConnection,
                ResetEvent::Answered(false) => ResetStep::Done(ResetResult::Aborted),
                _ => self,
            },
            ResetStep::CheckConnection => match event {
                ResetEvent::ConnectionChecked(true) => ResetStep::Pause,
                ResetEvent::ConnectionChecked(false) => ResetStep::Done(ResetResult::Unreachable),
                _ => self,
            },
            ResetStep::Pause => match event {
                ResetEvent::Paused => ResetStep::Send,
                _ => self,
            },
            ResetStep::Send => match event {
                ResetEvent::Written(outcome) => if outcome.reset_done() {
                    ResetStep::Done(ResetResult::Completed)
                } else {
                    ResetStep::Done(ResetResult::Failed)
                },
                _ => self,
            },
            ResetStep::Done(_) => self,
        }
    }

    /// The write that is due at this step: the reset command at
    /// [`ResetStep::Send`], none at any other step.
    pub fn request(&self) -> (request: Option<WriteRequest>)
        ensures
            request == if *self == ResetStep::Send {
                Some(WriteRequest { address: 0x00FF, value: 5 })
            } else {
                None::<WriteRequest>
            },
    {
        match self {
            ResetStep::Send => Some(WriteRequest::factory_reset()),
            _ => None,
        }
    }

    /// A timeout after the reset command is no failure: the procedure ends as
    /// completed, as it does after an acknowledgement. Any other failure of
    /// the write ends it as failed.
    pub proof fn lemma_timeout_counts_as_done()
        ensures
            ResetStep::Send.spec_next(ResetEvent::Written(WriteOutcome::TimedOut))
                == ResetStep::Done(ResetResult::Completed),
            ResetStep::Send.spec_next(ResetEvent::Written(WriteOutcome::Acknowledged))
                == ResetStep::Done(ResetResult::Completed),
            ResetStep::Send.spec_next(ResetEvent::Written(WriteOutcome::Failed))
                == ResetStep::Done(ResetResult::Failed),
    {
    }

    /// Once the procedure is done, no event changes its result.
    pub proof fn lemma_done_is_final(result: ResetResult, event: ResetEvent)
        ensures
            ResetStep::Done(result).spec_next(event) == ResetStep::Done(result),
    {
    }

    /// Whatever is reported, the reset command is written only after the user
    /// agreed and the connection check succeeded.
    pub proof fn lemma_sent_only_after_consent_and_check(events: Seq<ResetEvent>)
        ensures
            Self::spec_after(events).sends() ==> events.contains(ResetEvent::Answered(true))
                && events.contains(ResetEvent::ConnectionChecked(true)),
            Self::spec_after(events) == ResetStep::CheckConnection || Self::spec_after(events)
                == ResetStep::Pause || Self::spec_after(events) == ResetStep::Done(
                ResetResult::Unreachable,
            ) ==> events.contains(ResetEvent::Answered(true)),
            Self::spec_after(events) == ResetStep::Pause ==> events.contains(
                ResetEvent::ConnectionChecked(true),
            ),
        decreases events.len(),
    {
        if events.len() > 0 {
            let earlier = events.drop_last();
            Self::lemma_sent_only_after_consent_and_check(earlier);
            assert forall|event: ResetEvent| earlier.contains(event) implies events.contains(
                event,
            ) by {
                let i = choose|i: int| 0 <= i < earlier.len() && earlier[i] == event;
                assert(events[i] == event);
            }
        }
    }
}

} // verus!
