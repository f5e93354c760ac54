//! One attempt to read a memory region.
//!
//! An attempt is a handshake, the command written byte by byte with each
//! echo checked before the next byte goes out, the data bytes, and the
//! checksum byte. Whatever goes wrong ends the attempt; nothing is retried
//! here.

use vstd::prelude::*;
use crate::channel::{Action, Event};
use crate::command::{
    checksum, command, expected_echo, lemma_command_echo, lemma_command_general, RESET,
};
use crate::device::Device;
use crate::error::ProtocolError;
use crate::memory::Memory;
use crate::reset::Handshake;

verus! {

/// Where an attempt stands. Each state but the last two waits for the
/// outcome of one channel operation.
#[derive(Clone, Copy, Debug, PartialEq, Eq, Structural)]
pub enum Stage {
    /// The handshake is running.
    Handshake(Handshake),
    /// The command byte at `index` is being written.
    Sending { index: usize },
    /// The echo of the command byte at `index` is being read.
    Echo { index: usize },
    /// A data byte is being read.
    Receiving,
    /// The checksum byte is being read.
    Checksum,
    /// The response arrived and its checksum matched.
    Done,
    /// The attempt failed.
    Failed(ProtocolError),
}

/// An attempt to read one memory region.
pub struct Attempt {
    memory: Memory,
    command: Vec<u8>,
    stage: Stage,
    response: Vec<u8>,
}

/// An attempt as the contracts see it: the region, the stage, and the data
/// bytes received so far.
pub struct AttemptView {
    pub memory: Memory,
    pub stage: Stage,
    pub response: Seq<u8>,
}

impl AttemptView {
    /// The attempt at its start: the handshake's first round begins and no
    /// data has arrived.
    pub open spec fn start(memory: Memory) -> AttemptView {
        AttemptView {
            memory,
            stage: Stage::Handshake(Handshake::Flushing { round: 0 }),
            response: Seq::empty(),
        }
    }

    /// The region can be addressed by a five-byte command, the counters
    /// are within their limits, and the data received fits the stage: none
    /// before the command is through, fewer bytes than the region has
    /// while receiving, all of them once the checksum is due.
    pub open spec fn wf(self) -> bool {
        &&& self.memory.address != RESET
        &&& match self.stage {
            Stage::Handshake(handshake) => handshake.wf() && !handshake.finished()
                && self.response.len() == 0,
            Stage::Sending { index } => index < 5 && self.response.len() == 0,
            Stage::Echo { index } => index < 5 && self.response.len() == 0,
            Stage::Receiving => self.response.len() < self.memory.size,
            Stage::Checksum => self.response.len() == self.memory.size,
            Stage::Done => self.response.len() == self.memory.size,
            Stage::Failed(error) => error != ProtocolError::ReadExhausted && self.response.len()
                <= self.memory.size,
        }
    }

    /// Whether the attempt has ended.
    pub open spec fn finished(self) -> bool {
        self.stage is Done || self.stage is Failed
    }

    /// The operation the attempt waits for; none once it has ended.
    pub open spec fn pending(self) -> Option<Action> {
        match self.stage {
            Stage::Handshake(handshake) => handshake.pending(),
            Stage::Sending { index } => Some(Action::Write(command(self.memory)[index as int])),
            Stage::Echo { .. } => Some(Action::Read),
            Stage::Receiving => Some(Action::Read),
            Stage::Checksum => Some(Action::Read),
            Stage::Done => None,
            Stage::Failed(_) => None,
        }
    }

    /// The stage that follows the last echo: the data, or at once the
    /// checksum where the region has no bytes.
    pub open spec fn after_command(self) -> Stage {
        if self.memory.size == 0 {
            Stage::Checksum
        } else {
            Stage::Receiving
        }
    }

    /// The attempt after the pending operation ended in `event`.
    ///
    /// The handshake runs by its own rules; when it is ready the first
    /// command byte goes out, and when it fails the attempt fails with it.
    /// A command byte that was written is followed by the read of its
    /// echo. An echo that matches leads to the next command byte, or after
    /// the last one to the data; one that does not match fails the attempt.
    /// Each data byte is appended to the response until the region's size
    /// is reached. The checksum byte either matches the response, which
    /// completes the attempt, or fails it. An operation that does not
    /// produce what the stage waits for is a channel failure. An attempt
    /// that has ended stays as it is.
    pub open spec fn next(self, event: Event) -> AttemptView {
        match self.stage {
            Stage::Handshake(handshake) => match handshake.next(event) {
                Handshake::Ready => AttemptView { stage: Stage::Sending { index: 0 }, ..self },
                Handshake::Failed(error) => AttemptView { stage: Stage::Failed(error), ..self },
                running => AttemptView { stage: Stage::Handshake(running), ..self },
            },
            Stage::Sending { index } => if event is Done {
                AttemptView { stage: Stage::Echo { index }, ..self }
            } else {
                AttemptView { stage: Stage::Failed(ProtocolError::ChannelIo), ..self }
            },
            Stage::Echo { index } => match event {
                Event::Byte(answer) => if answer != expected_echo(
                    command(self.memory)[index as int],
                    index as int,
                ) {
                    AttemptView { stage: Stage::Failed(ProtocolError::EchoMismatch), ..self }
                } else if index + 1 < command(self.memory).len() {
                    AttemptView { stage: Stage::Sending { index: (index + 1) as usize }, ..self }
                } else {
                    AttemptView { stage: self.after_command(), ..self }
                },
                _ => AttemptView { stage: Stage::Failed(ProtocolError::ChannelIo), ..self },
            },
            Stage::Receiving => match event {
                Event::Byte(byte) => AttemptView {
                    stage: if self.response.len() + 1 == self.memory.size {
                        Stage::Checksum
                    } else {
                        Stage::Receiving
                    },
                    response: self.response.push(byte),
                    ..self
                },
                _ => AttemptView { stage: Stage::Failed(ProtocolError::ChannelIo), ..self },
            },
            Stage::Checksum => match event {
                Event::Byte(answer) => if answer == checksum(self.response) {
                    AttemptView { stage: Stage::Done, ..self }
                } else {
                    AttemptView { stage: Stage::Failed(ProtocolError::ChecksumMismatch), ..self }
                },
                _ => AttemptView { stage: Stage::Failed(ProtocolError::ChannelIo), ..self },
            },
            Stage::Done => self,
            Stage::Failed(_) => self,
        }
    }

    /// How the attempt ended: `None` while it runs.
    pub open spec fn outcome(self) -> Option<Result<Seq<u8>, ProtocolError>> {
        match self.stage {
            Stage::Done => Some(Ok(self.response)),
            Stage::Failed(error) => Some(Err(error)),
            _ => None,
        }
    }

    /// An upper bound on the number of events the attempt still consumes.
    pub open spec fn budget(self) -> int {
        match self.stage {
            Stage::Handshake(handshake) => handshake.budget() + 11 + self.memory.size,
            Stage::Sending { index } => 2 * (5 - index) + 1 + self.memory.size,
            Stage::Echo { index } => 2 * (5 - index) + self.memory.size,
            Stage::Receiving => 1 + self.memory.size - self.response.len(),
            Stage::Checksum => 1,
            Stage::Done => 0,
            Stage::Failed(_) => 0,
        }
    }

    /// A well-formed attempt stays well formed.
    pub proof fn lemma_next_wf(self, event: Event)
        requires
            self.wf(),
        ensures
            self.next(event).wf(),
            self.next(event).memory == self.memory,
    {
        lemma_command_general(self.memory);
        if let Stage::Handshake(handshake) = self.stage {
            handshake.lemma_next_wf(event);
        }
    }

    /// Every event brings a running attempt closer to its end: the budget
    /// is never negative and each step lowers it.
    pub proof fn lemma_next_progress(self, event: Event)
        requires
            self.wf(),
            !self.finished(),
        ensures
            0 <= self.next(event).budget() < self.budget(),
    {
        lemma_command_general(self.memory);
        if let Stage::Handshake(handshake) = self.stage {
            handshake.lemma_next_progress(event);
        }
    }

    /// An attempt completes only on a checksum byte that matches the
    /// response, which then has as many bytes as the region.
    pub proof fn lemma_done_needs_checksum(self, event: Event)
        requires
            self.wf(),
            !(self.stage is Done),
            self.next(event).stage is Done,
        ensures
            self.stage is Checksum,
            event == Event::Byte(checksum(self.response) as u8),
            self.next(event).response == self.response,
            self.response.len() == self.memory.size,
    {
        if let Stage::Handshake(handshake) = self.stage {
            handshake.lemma_next_wf(event);
        }
    }
}

impl View for Attempt {
    type V = AttemptView;

    closed spec fn view(&self) -> AttemptView {
        AttemptView { memory: self.memory, stage: self.stage, response: self.response@ }
    }
}

impl Attempt {
    /// The attempt is well formed as its view says, and holds the command
    /// of its region.
    pub closed spec fn wf(&self) -> bool {
        &&& self@.wf()
        &&& self.command@ == command(self.memory)
    }

    /// A fresh attempt to read `memory`.
    ///
    /// The region must not lie at the address that equals the reset byte:
    /// the console has no echo for the one-byte command of that address.
    pub fn new(memory: &Memory) -> (attempt: Attempt)
        requires
            memory.address != RESET,
        ensures
            attempt.wf(),
            attempt@ == AttemptView::start(*memory),
    {
        Attempt {
            memory: *memory,
            command: Device::encode_address(memory),
            stage: Stage::Handshake(Handshake::new()),
            response: Vec::new(),
        }
    }

    /// The region the attempt reads.
    pub fn memory(&self) -> (memory: Memory)
        ensures
            memory == self@.memory,
    {
        self.memory
    }

    /// The stage the attempt is in.
    pub fn stage(&self) -> (stage: Stage)
        ensures
            stage == self@.stage,
    {
        self.stage
    }

    /// The operation to perform next, or `None` once the attempt has ended.
    pub fn action(&self) -> (action: Option<Action>)
        requires
            self.wf(),
        ensures
            action == self@.pending(),
    {
        proof {
            lemma_command_general(self.memory);
        }
        match self.stage {
            Stage::Handshake(handshake) => handshake.action(),
            Stage::Sending { index } => Some(Action::Write(self.command[index])),
            Stage::Echo { .. } => Some(Action::Read),
            Stage::Receiving => Some(Action::Read),
            Stage::Checksum => Some(Action::Read),
            Stage::Done => None,
            Stage::Failed(_) => None,
        }
    }

    /// Ends the attempt and hands out what it came to: the response, or
    /// the reason it failed; `None` if it has not ended.
    pub fn finish(self) -> (outcome: Option<Result<Vec<u8>, ProtocolError>>)
        ensures
            match outcome {
                Some(Ok(response)) => self@.outcome() == Some(
                    Ok::<Seq<u8>, ProtocolError>(response@),
                ),
                Some(Err(error)) => self@.outcome() == Some(Err::<Seq<u8>, ProtocolError>(error)),
                None => self@.outcome().is_none(),
            },
    {
        match self.stage {
            Stage::Done => Some(Ok(self.response)),
            Stage::Failed(error) => Some(Err(error)),
            _ => None,
        }
    }
}

impl Device {
    /// Advances an attempt by the outcome of its pending operation.
    pub fn read(state: Attempt, event: Event) -> (next: Attempt)
        requires
            state.wf(),
        ensures
            next.wf(),
            next@ == state@.next(event),
    {
        proof {
            lemma_command_general(state.memory);
            state@.lemma_next_wf(event);
        }
        let mut next = state;
        match next.stage {
            Stage::Handshake(handshake) => {
                next.stage = match Device::reset(handshake, event) {
                    Handshake::Ready => Stage::Sending { index: 0 },
                    Handshake::Failed(error) => Stage::Failed(error),
                    running => Stage::Handshake(running),
                };
            },
            Stage::Sending { index } => {
                next.stage = match event {
                    Event::Done => Stage::Echo { index },
                    _ => Stage::Failed(ProtocolError::ChannelIo),
                };
            },
            Stage::Echo { index } => {
                next.stage = match event {
                    Event::Byte(answer) => {
                        proof {
                            lemma_command_echo(next.memory, index as int);
                        }
                        match Device::check(next.command[index], index, answer) {
                            Err(error) => Stage::Failed(error),
                            Ok(_) => {
                                if index + 1 < next.command.len() {
                                    Stage::Sending { index: index + 1 }
                                } else if next.memory.size == 0 {
                                    Stage::Checksum
                                } else {
                                    Stage::Receiving
                                }
                            },
                        }
                    },
                    _ => Stage::Failed(ProtocolError::ChannelIo),
                };
            },
            Stage::Receiving => {
                match event {
                    Event::Byte(byte) => {
                        next.response.push(byte);
                        if next.response.len() == next.memory.size {
                            next.stage = Stage::Checksum;
                        }
                    },
                    _ => {
                        next.stage = Stage::Failed(ProtocolError::ChannelIo);
                    },
                }
            },
            Stage::Checksum => {
                next.stage = match event {
                    Event::Byte(answer) => match Device::check_data(answer, next.response.clone()) {
                        Ok(_) => Stage::Done,
                        Err(error) => Stage::Failed(error),
                    },
                    _ => Stage::Failed(ProtocolError::ChannelIo),
                };
            },
            Stage::Done => {},
            Stage::Failed(_) => {},
        }
        next
    }
}

} // verus!
