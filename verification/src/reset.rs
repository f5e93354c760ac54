//! The handshake that brings the console to accept a command.
//!
//! A round flushes the channel, writes the reset byte and probes for the
//! console's answer. The console may answer busy a number of times before
//! it answers ready. A round that does not end in ready is followed by a
//! pause that grows with the round's number, and then by the next round.

use vstd::prelude::*;
use crate::channel::{Action, Event};
use crate::command::RESET;
use crate::device::Device;
use crate::error::ProtocolError;

verus! {

/// The number of rounds after which the handshake gives up.
pub const ROUNDS: u32 = 100;

/// The number of answers read in one round.
pub const PROBES: u32 = 10;

/// The console's answer while it is not yet synchronised.
pub const BUSY: u8 = 0x01;

/// The console's answer once it accepts a command.
pub const READY: u8 = 0x02;

/// The pause after the first round, in milliseconds.
pub const BACKOFF_MS: u64 = 100;

/// Where a handshake stands. Each state but the last two waits for the
/// outcome of one channel operation.
#[derive(Clone, Copy, Debug, PartialEq, Eq, Structural)]
pub enum Handshake {
    /// Round `round` begins: stale input is being flushed.
    Flushing { round: u32 },
    /// The reset byte is being written.
    Resetting { round: u32 },
    /// An answer is being read; `reads` busy answers came before it.
    Probing { round: u32, reads: u32 },
    /// The round was abandoned and the pause after it is running.
    Backoff { round: u32 },
    /// The console answered ready.
    Ready,
    /// The handshake ended without the console being ready.
    Failed(ProtocolError),
}

impl Handshake {
    /// The round and read counters are within their limits, and a failed
    /// handshake failed for one of the two reasons a handshake can.
    pub open spec fn wf(self) -> bool {
        match self {
            Handshake::Flushing { round } => round < ROUNDS,
            Handshake::Resetting { round } => round < ROUNDS,
            Handshake::Probing { round, reads } => round < ROUNDS && reads < PROBES,
            Handshake::Backoff { round } => round < ROUNDS,
            Handshake::Ready => true,
            Handshake::Failed(error) => error == ProtocolError::HandshakeFailed || error
                == ProtocolError::ChannelIo,
        }
    }

    /// Whether the handshake has ended.
    pub open spec fn finished(self) -> bool {
        self is Ready || self is Failed
    }

    /// The pause after round `round`, in milliseconds.
    pub open spec fn backoff(round: u32) -> int {
        BACKOFF_MS * (round + 1)
    }

    /// The operation the handshake waits for; none once it has ended.
    pub open spec fn pending(self) -> Option<Action> {
        match self {
            Handshake::Flushing { .. } => Some(Action::Flush),
            Handshake::Resetting { .. } => Some(Action::Write(RESET)),
            Handshake::Probing { .. } => Some(Action::Read),
            Handshake::Backoff { round } => Some(Action::Sleep(Self::backoff(round) as u64)),
            Handshake::Ready => None,
            Handshake::Failed(_) => None,
        }
    }

    /// The state after the pending operation ended in `event`.
    ///
    /// A flush or a write that did not go through ends the handshake with
    /// a channel failure. While probing, ready ends the handshake, busy
    /// reads on until the round's reads are used up, and anything else
    /// abandons the round. The pause cannot fail; after the last round's
    /// pause the handshake has failed. A handshake that has ended stays
    /// as it is.
    pub open spec fn next(self, event: Event) -> Handshake {
        match self {
            Handshake::Flushing { round } => if event is Done {
                Handshake::Resetting { round }
            } else {
                Handshake::Failed(ProtocolError::ChannelIo)
            },
            Handshake::Resetting { round } => if event is Done {
                Handshake::Probing { round, reads: 0 }
            } else {
                Handshake::Failed(ProtocolError::ChannelIo)
            },
            Handshake::Probing { round, reads } => if event == Event::Byte(READY) {
                Handshake::Ready
            } else if event == Event::Byte(BUSY) && reads + 1 < PROBES {
                Handshake::Probing { round, reads: (reads + 1) as u32 }
            } else {
                Handshake::Backoff { round }
            },
            Handshake::Backoff { round } => if round + 1 < ROUNDS {
                Handshake::Flushing { round: (round + 1) as u32 }
            } else {
                Handshake::Failed(ProtocolError::HandshakeFailed)
            },
            Handshake::Ready => self,
            Handshake::Failed(_) => self,
        }
    }

    /// An upper bound on the number of events the handshake still consumes.
    pub open spec fn budget(self) -> int {
        match self {
            Handshake::Flushing { round } => (ROUNDS - round) * (PROBES + 3),
            Handshake::Resetting { round } => (ROUNDS - round) * (PROBES + 3) - 1,
            Handshake::Probing { round, reads } => (ROUNDS - round) * (PROBES + 3) - 2 - reads,
            Handshake::Backoff { round } => (ROUNDS - round) * (PROBES + 3) - 2 - PROBES,
            Handshake::Ready => 0,
            Handshake::Failed(_) => 0,
        }
    }

    /// A handshake at the start of its first round.
    pub fn new() -> (handshake: Handshake)
        ensures
            handshake == (Handshake::Flushing { round: 0 }),
            handshake.wf(),
    {
        Handshake::Flushing { round: 0 }
    }

    /// The operation to perform next, or `None` once the handshake has
    /// ended.
    pub fn action(&self) -> (action: Option<Action>)
        ensures
            action == self.pending(),
    {
        match *self {
            Handshake::Flushing { .. } => Some(Action::Flush),
            Handshake::Resetting { .. } => Some(Action::Write(RESET)),
            Handshake::Probing { .. } => Some(Action::Read),
            Handshake::Backoff { round } => {
                let rounds: u64 = round as u64 + 1;
                Some(Action::Sleep(BACKOFF_MS * rounds))
            },
            Handshake::Ready => None,
            Handshake::Failed(_) => None,
        }
    }

    /// How the handshake ended: `None` while it runs.
    pub fn outcome(&self) -> (outcome: Option<Result<(), ProtocolError>>)
        ensures
            outcome == match *self {
                Handshake::Ready => Some(Ok::<(), ProtocolError>(())),
                Handshake::Failed(error) => Some(Err::<(), ProtocolError>(error)),
                _ => None,
            },
    {
        match *self {
            Handshake::Ready => Some(Ok(())),
            Handshake::Failed(error) => Some(Err(error)),
            _ => None,
        }
    }

    /// A well-formed handshake stays well formed.
    pub proof fn lemma_next_wf(self, event: Event)
        requires
            self.wf(),
        ensures
            self.next(event).wf(),
    {
    }

    /// Every event brings a running handshake closer to its end: the
    /// budget is never negative and each step lowers it, so a handshake
    /// ends after at most `ROUNDS * (PROBES + 3)` events.
    pub proof fn lemma_next_progress(self, event: Event)
        requires
            self.wf(),
            !self.finished(),
        ensures
            0 <= self.next(event).budget() < self.budget(),
            self.budget() <= ROUNDS * (PROBES + 3),
    {
    }

    /// The handshake succeeds only on the console's ready answer, read
    /// while probing.
    pub proof fn lemma_ready_needs_answer(self, event: Event)
        requires
            !(self is Ready),
            self.next(event) is Ready,
        ensures
            self is Probing,
            event == Event::Byte(READY),
    {
    }

    /// The handshake gives up only after the pause of the last round; any
    /// other failure is a flush or a write that did not go through.
    pub proof fn lemma_failure_cause(self, event: Event)
        requires
            self.wf(),
            !self.finished(),
            self.next(event) is Failed,
        ensures
            self.next(event) == Handshake::Failed(ProtocolError::HandshakeFailed) <==> self
                == (Handshake::Backoff { round: (ROUNDS - 1) as u32 }),
            self.next(event) == Handshake::Failed(ProtocolError::ChannelIo) <==> (self is Flushing
                || self is Resetting) && !(event is Done),
    {
    }
}

impl Device {
    /// Advances a handshake by the outcome of its pending operation.
    pub fn reset(state: Handshake, event: Event) -> (next: Handshake)
        ensures
            next == state.next(event),
            state.wf() ==> next.wf(),
    {
        match state {
            Handshake::Flushing { round } => match event {
                Event::Done => Handshake::Resetting { round },
                _ => Handshake::Failed(ProtocolError::ChannelIo),
            },
            Handshake::Resetting { round } => match event {
                Event::Done => Handshake::Probing { round, reads: 0 },
                _ => Handshake::Failed(ProtocolError::ChannelIo),
            },
            Handshake::Probing { round, reads } => match event {
                Event::Byte(answer) => {
                    if answer == READY {
                        Handshake::Ready
                    } else if answer == BUSY && reads < PROBES - 1 {
                        Handshake::Probing { round, reads: reads + 1 }
                    } else {
                        Handshake::Backoff { round }
                    }
                },
                _ => Handshake::Backoff { round },
            },
            Handshake::Backoff { round } => {
                if round < ROUNDS - 1 {
                    Handshake::Flushing { round: round + 1 }
                } else {
                    Handshake::Failed(ProtocolError::HandshakeFailed)
                }
            },
            Handshake::Ready => state,
            Handshake::Failed(_) => state,
        }
    }
}

} // verus!
