//! A read of a memory region: attempts repeated until one succeeds.
//!
//! Every attempt starts from a fresh handshake and shares nothing with the
//! one before it. The read ends with the first attempt that completes, or
//! fails once the last attempt has.

use vstd::prelude::*;
use crate::channel::{Action, Event};
use crate::command::RESET;
use crate::device::Device;
use crate::error::ProtocolError;
use crate::memory::Memory;
use crate::read::{Attempt, AttemptView, Stage};

verus! {

/// The number of attempts a read is given.
pub const ATTEMPTS: u32 = 50;

/// A read of one memory region.
pub struct Retry {
    failures: u32,
    last: Option<ProtocolError>,
    attempt: Attempt,
}

/// A read as the contracts see it: the number of attempts that failed,
/// why the latest of them failed, and the attempt that is under way or, in
/// a read that has ended, was the last.
pub struct RetryView {
    pub failures: nat,
    pub last: Option<ProtocolError>,
    pub attempt: AttemptView,
}

impl RetryView {
    /// The read at its start: nothing has failed and the first attempt
    /// begins.
    pub open spec fn start(memory: Memory) -> RetryView {
        RetryView { failures: 0, last: None, attempt: AttemptView::start(memory) }
    }

    /// The attempt is well formed, no more attempts have failed than the
    /// read is given, and a failed attempt is at hand exactly when they all
    /// have.
    pub open spec fn wf(self) -> bool {
        &&& self.attempt.wf()
        &&& self.failures <= ATTEMPTS
        &&& self.attempt.stage is Failed <==> self.failures == ATTEMPTS
        &&& self.last is Some <==> self.failures > 0
        &&& self.last != Some(ProtocolError::ReadExhausted)
    }

    /// The region the read is for.
    pub open spec fn memory(self) -> Memory {
        self.attempt.memory
    }

    /// Whether the read has ended.
    pub open spec fn finished(self) -> bool {
        self.attempt.stage is Done || self.failures >= ATTEMPTS
    }

    /// The operation the read waits for; none once it has ended.
    pub open spec fn pending(self) -> Option<Action> {
        if self.finished() {
            None
        } else {
            self.attempt.pending()
        }
    }

    /// The read after the pending operation ended in `event`.
    ///
    /// The event goes to the attempt under way. If that fails the attempt,
    /// the failure is counted and a fresh attempt takes its place, unless
    /// it was the last one the read is given. A read that has ended stays
    /// as it is.
    pub open spec fn next(self, event: Event) -> RetryView {
        if self.finished() {
            self
        } else {
            let attempt = self.attempt.next(event);
            match attempt.stage {
                Stage::Failed(error) => RetryView {
                    failures: self.failures + 1,
                    last: Some(error),
                    attempt: if self.failures + 1 < ATTEMPTS {
                        AttemptView::start(self.memory())
                    } else {
                        attempt
                    },
                },
                _ => RetryView { attempt, ..self },
            }
        }
    }

    /// How the read ended: with the response of the attempt that
    /// completed, or exhausted; `None` while it runs.
    pub open spec fn outcome(self) -> Option<Result<Seq<u8>, ProtocolError>> {
        if self.attempt.stage is Done {
            Some(Ok(self.attempt.response))
        } else if self.failures >= ATTEMPTS {
            Some(Err(ProtocolError::ReadExhausted))
        } else {
            None
        }
    }

    /// The largest number of events one attempt at `memory` consumes.
    pub open spec fn attempt_budget(memory: Memory) -> int {
        AttemptView::start(memory).budget()
    }

    /// An upper bound on the number of events the read still consumes.
    pub open spec fn budget(self) -> int {
        if self.finished() {
            0
        } else {
            (ATTEMPTS - 1 - self.failures) * Self::attempt_budget(self.memory())
                + self.attempt.budget()
        }
    }

    /// A well-formed read stays well formed, and stays with its region.
    pub proof fn lemma_next_wf(self, event: Event)
        requires
            self.wf(),
        ensures
            self.next(event).wf(),
            self.next(event).memory() == self.memory(),
    {
        self.attempt.lemma_next_wf(event);
    }

    /// Every event brings a running read closer to its end: the budget is
    /// never negative and each step lowers it.
    pub proof fn lemma_next_progress(self, event: Event)
        requires
            self.wf(),
            !self.finished(),
        ensures
            0 <= self.next(event).budget() < self.budget(),
    {
        self.attempt.lemma_next_wf(event);
        self.attempt.lemma_next_progress(event);
        let per = Self::attempt_budget(self.memory());
        let left = ATTEMPTS - 1 - self.failures;
        assert(per > 0);
        assert(left >= 0);
        assert(left * per >= 0) by (nonlinear_arith)
            requires
                left >= 0,
                per > 0,
        ;
        assert((left - 1) * per + per == left * per) by (nonlinear_arith);
        if self.next(event).finished() {
        } else if self.attempt.next(event).stage is Failed {
            assert(self.next(event).budget() == (left - 1) * per + per);
        } else {
        }
    }

    /// The count of failed attempts never goes down, and goes up by one
    /// exactly when the event fails the attempt under way.
    pub proof fn lemma_failures_count(self, event: Event)
        requires
            self.wf(),
        ensures
            self.next(event).failures == self.failures + if !self.finished()
                && self.attempt.next(event).stage is Failed {
                1nat
            } else {
                0nat
            },
    {
    }

    /// A read that ends well hands out a response of the region's size
    /// whose checksum the console confirmed with the last byte it sent.
    pub proof fn lemma_done_needs_checksum(self, event: Event)
        requires
            self.wf(),
            !self.finished(),
            self.next(event).outcome() is Some,
            self.next(event).outcome()->Some_0 is Ok,
        ensures
            self.attempt.stage is Checksum,
            self.next(event).outcome() == Some(Ok::<Seq<u8>, ProtocolError>(self.attempt.response)),
            self.attempt.response.len() == self.memory().size,
            event == Event::Byte(crate::command::checksum(self.attempt.response) as u8),
    {
        self.attempt.lemma_next_wf(event);
        self.attempt.lemma_done_needs_checksum(event);
    }

    /// A read is exhausted only by the failure of its last attempt, after
    /// all the attempts before it have failed.
    pub proof fn lemma_exhausted_needs_failures(self, event: Event)
        requires
            self.wf(),
            !self.finished(),
            self.next(event).outcome() == Some(
                Err::<Seq<u8>, ProtocolError>(ProtocolError::ReadExhausted),
            ),
        ensures
            self.failures == ATTEMPTS - 1,
            self.attempt.next(event).stage is Failed,
    {
        self.attempt.lemma_next_wf(event);
    }
}

impl View for Retry {
    type V = RetryView;

    closed spec fn view(&self) -> RetryView {
        RetryView { failures: self.failures as nat, last: self.last, attempt: self.attempt@ }
    }
}

impl Retry {
    /// The read is well formed as its view says, and so is the attempt it
    /// holds.
    pub closed spec fn wf(&self) -> bool {
        &&& self@.wf()
        &&& self.attempt.wf()
    }

    /// A fresh read of `memory`.
    ///
    /// The region must not lie at the address that equals the reset byte:
    /// the console has no echo for the one-byte command of that address.
    pub fn new(memory: &Memory) -> (retry: Retry)
        requires
            memory.address != RESET,
        ensures
            retry.wf(),
            retry@ == RetryView::start(*memory),
    {
        Retry { failures: 0, last: None, attempt: Attempt::new(memory) }
    }

    /// The number of attempts that have failed.
    pub fn failures(&self) -> (failures: u32)
        requires
            self.wf(),
        ensures
            failures == self@.failures,
            failures <= ATTEMPTS,
    {
        self.failures
    }

    /// Whether the read has ended.
    pub fn ended(&self) -> (ended: bool)
        requires
            self.wf(),
        ensures
            ended == self@.finished(),
    {
        if self.failures >= ATTEMPTS {
            true
        } else {
            match self.attempt.stage() {
                Stage::Done => true,
                _ => false,
            }
        }
    }

    /// Why the latest failed attempt failed; `None` if none has.
    pub fn last_failure(&self) -> (last: Option<ProtocolError>)
        ensures
            last == self@.last,
    {
        self.last
    }

    /// The operation to perform next, or `None` once the read has ended.
    pub fn action(&self) -> (action: Option<Action>)
        requires
            self.wf(),
        ensures
            action == self@.pending(),
    {
        if self.failures >= ATTEMPTS {
            None
        } else {
            self.attempt.action()
        }
    }

    /// Ends the read and hands out what it came to: the response, or
    /// `ReadExhausted`; `None` if it has not ended.
    pub fn finish(self) -> (outcome: Option<Result<Vec<u8>, ProtocolError>>)
        requires
            self.wf(),
        ensures
            match outcome {
                Some(Ok(response)) => self@.outcome() == Some(
                    Ok::<Seq<u8>, ProtocolError>(response@),
                ),
                Some(Err(error)) => self@.outcome() == Some(Err::<Seq<u8>, ProtocolError>(error)),
                None => self@.outcome().is_none(),
            },
            outcome matches Some(Ok(response)) ==> response@.len() == self@.memory().size,
    {
        if self.failures >= ATTEMPTS {
            Some(Err(ProtocolError::ReadExhausted))
        } else {
            match self.attempt.finish() {
                Some(Ok(response)) => Some(Ok(response)),
                _ => None,
            }
        }
    }
}

impl Device {
    /// Advances a read by the outcome of its pending operation.
    pub fn try_read(state: Retry, event: Event) -> (next: Retry)
        requires
            state.wf(),
        ensures
            next.wf(),
            next@ == state@.next(event),
    {
        proof {
            state@.lemma_next_wf(event);
        }
        if state.failures >= ATTEMPTS {
            return state;
        }
        if let Stage::Done = state.attempt.stage() {
            return state;
        }
        let memory = state.attempt.memory();
        let attempt = Device::read(state.attempt, event);
        match attempt.stage() {
            Stage::Failed(error) => {
                let failures: u32 = state.failures + 1;
                Retry {
                    failures,
                    last: Some(error),
                    attempt: if failures < ATTEMPTS {
                        Attempt::new(&memory)
                    } else {
                        attempt
                    },
                }
            },
            _ => Retry { failures: state.failures, last: state.last, attempt },
        }
    }
}

} // verus!
