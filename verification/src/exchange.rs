//! Whole exchanges: what a read comes to when the console answers a
//! sequence of operations in a given way.
//!
//! The state machines say what one event does. The laws of this module
//! follow a read through the events of complete exchanges with a console
//! that keeps to the protocol, and state the outcome.

use vstd::prelude::*;
use crate::channel::Event;
use crate::command::{
    checksum, command, expected_echo, lemma_checksum_push, lemma_command_echo,
    lemma_command_general, RESET,
};
use crate::error::ProtocolError;
use crate::memory::Memory;
use crate::read::{AttemptView, Stage};
use crate::reset::READY;
use crate::try_read::{RetryView, ATTEMPTS};

verus! {

/// The events of a handshake with a console that is ready at once: the
/// flush and the write go through, and the first answer is ready.
pub open spec fn greeting() -> Seq<Event> {
    seq![Event::Done, Event::Done, Event::Byte(READY)]
}

/// The events while the command for `memory` goes out: each of the five
/// writes goes through and is answered by the echo the byte is owed.
pub open spec fn echoes(memory: Memory) -> Seq<Event> {
    Seq::new(
        10,
        |i: int|
            if i % 2 == 0 {
                Event::Done
            } else {
                Event::Byte(expected_echo(command(memory)[i / 2], i / 2) as u8)
            },
    )
}

/// The events of the console sending `data`, byte by byte.
pub open spec fn bytes(data: Seq<u8>) -> Seq<Event> {
    Seq::new(data.len(), |i: int| Event::Byte(data[i]))
}

/// The events of one exchange with a console that keeps to the protocol
/// and sends `data` followed by the checksum byte `answer`.
pub open spec fn exchange(memory: Memory, data: Seq<u8>, answer: u8) -> Seq<Event> {
    greeting() + echoes(memory) + bytes(data) + seq![Event::Byte(answer)]
}

/// The events of one exchange after another, each with the same `data`,
/// the checksum bytes being `answers` in turn.
pub open spec fn exchanges(memory: Memory, data: Seq<u8>, answers: Seq<u8>) -> Seq<Event>
    decreases answers.len(),
{
    if answers.len() == 0 {
        Seq::empty()
    } else {
        exchanges(memory, data, answers.drop_last()) + exchange(memory, data, answers.last())
    }
}

impl AttemptView {
    /// The attempt after a sequence of events, taken in order.
    pub open spec fn run(self, events: Seq<Event>) -> AttemptView
        decreases events.len(),
    {
        if events.len() == 0 {
            self
        } else {
            self.run(events.drop_last()).next(events.last())
        }
    }

    /// One more event is one more step.
    pub proof fn lemma_run_push(self, events: Seq<Event>, event: Event)
        ensures
            self.run(events.push(event)) == self.run(events).next(event),
    {
        assert(events.push(event).drop_last() == events);
    }

    /// Running two sequences in a row is running the second from where the
    /// first one ended.
    pub proof fn lemma_run_concat(self, first: Seq<Event>, second: Seq<Event>)
        ensures
            self.run(first + second) == self.run(first).run(second),
        decreases second.len(),
    {
        if second.len() == 0 {
            assert(first + second == first);
        } else {
            assert((first + second).drop_last() == first + second.drop_last());
            self.lemma_run_concat(first, second.drop_last());
        }
    }

    /// No sequence of events takes a well-formed attempt out of shape or
    /// to another region, and none moves an attempt that has ended.
    pub proof fn lemma_run_wf(self, events: Seq<Event>)
        requires
            self.wf(),
        ensures
            self.run(events).wf(),
            self.run(events).memory == self.memory,
            self.finished() ==> self.run(events) == self,
        decreases events.len(),
    {
        if events.len() > 0 {
            self.lemma_run_wf(events.drop_last());
            self.run(events.drop_last()).lemma_next_wf(events.last());
        }
    }

    /// An attempt that a sequence of events leaves running was running
    /// after every part of it.
    pub proof fn lemma_run_unfinished(self, events: Seq<Event>, n: int)
        requires
            self.wf(),
            0 <= n <= events.len(),
            !self.run(events).finished(),
        ensures
            !self.run(events.take(n)).finished(),
    {
        assert(events == events.take(n) + events.skip(n));
        self.lemma_run_concat(events.take(n), events.skip(n));
        self.lemma_run_wf(events.take(n));
        self.run(events.take(n)).lemma_run_wf(events.skip(n));
    }
}

/// The attempt once the handshake of an exchange is through: the first
/// command byte is about to go out.
proof fn lemma_greeting(memory: Memory)
    requires
        memory.address != RESET,
    ensures
        AttemptView::start(memory).run(greeting()) == (AttemptView {
            stage: Stage::Sending { index: 0 },
            ..AttemptView::start(memory)
        }),
{
    let start = AttemptView::start(memory);
    let none = Seq::<Event>::empty();
    let one = none.push(Event::Done);
    let two = one.push(Event::Done);
    assert(greeting() == two.push(Event::Byte(READY)));
    start.lemma_run_push(none, Event::Done);
    start.lemma_run_push(one, Event::Done);
    start.lemma_run_push(two, Event::Byte(READY));
}

/// The events while the first `count` command bytes go out.
spec fn echoes_sent(memory: Memory, count: int) -> Seq<Event> {
    echoes(memory).take(2 * count)
}

/// The attempt once `count` command bytes are out and echoed.
proof fn lemma_echoes(memory: Memory, count: int)
    requires
        memory.address != RESET,
        0 <= count <= 5,
    ensures
        (AttemptView { stage: Stage::Sending { index: 0 }, ..AttemptView::start(memory) }).run(
            echoes_sent(memory, count),
        ) == (AttemptView {
            stage: if count < 5 {
                Stage::Sending { index: count as usize }
            } else {
                AttemptView::start(memory).after_command()
            },
            ..AttemptView::start(memory)
        }),
    decreases count,
{
    let sending = AttemptView { stage: Stage::Sending { index: 0 }, ..AttemptView::start(memory) };
    lemma_command_general(memory);
    if count == 0 {
        assert(echoes_sent(memory, 0) == Seq::<Event>::empty());
    } else {
        let last = count - 1;
        lemma_echoes(memory, last);
        lemma_command_echo(memory, last);
        let before = echoes_sent(memory, last);
        let echo = Event::Byte(expected_echo(command(memory)[last], last) as u8);
        assert(echoes_sent(memory, count) == before.push(Event::Done).push(echo));
        sending.lemma_run_push(before, Event::Done);
        sending.lemma_run_push(before.push(Event::Done), echo);
    }
}

/// The attempt once the first `count` data bytes have arrived.
proof fn lemma_bytes(memory: Memory, data: Seq<u8>, count: int)
    requires
        memory.address != RESET,
        data.len() == memory.size,
        0 <= count <= data.len(),
    ensures
        (AttemptView {
            stage: AttemptView::start(memory).after_command(),
            ..AttemptView::start(memory)
        }).run(bytes(data.take(count))) == (AttemptView {
            memory,
            stage: if count < data.len() {
                Stage::Receiving
            } else {
                Stage::Checksum
            },
            response: data.take(count),
        }),
    decreases count,
{
    let receiving = AttemptView {
        stage: AttemptView::start(memory).after_command(),
        ..AttemptView::start(memory)
    };
    if count == 0 {
        assert(bytes(data.take(0)) == Seq::<Event>::empty());
        assert(data.take(0) == Seq::<u8>::empty());
    } else {
        lemma_bytes(memory, data, count - 1);
        let before = bytes(data.take(count - 1));
        assert(bytes(data.take(count)) == before.push(Event::Byte(data[count - 1])));
        assert(data.take(count) == data.take(count - 1).push(data[count - 1]));
        receiving.lemma_run_push(before, Event::Byte(data[count - 1]));
    }
}

/// The attempt after everything of an exchange but the checksum byte: it
/// holds the data and waits for the checksum.
proof fn lemma_exchange_data(memory: Memory, data: Seq<u8>)
    requires
        memory.address != RESET,
        data.len() == memory.size,
    ensures
        AttemptView::start(memory).run(greeting() + echoes(memory) + bytes(data)) == (AttemptView {
            memory,
            stage: Stage::Checksum,
            response: data,
        }),
{
    let start = AttemptView::start(memory);
    lemma_greeting(memory);
    lemma_echoes(memory, 5);
    assert(echoes_sent(memory, 5) == echoes(memory));
    lemma_bytes(memory, data, data.len() as int);
    assert(data.take(data.len() as int) == data);
    start.lemma_run_concat(greeting(), echoes(memory));
    start.lemma_run_concat(greeting() + echoes(memory), bytes(data));
}

/// An attempt against a console that keeps to the protocol ends with the
/// checksum byte: it completes with exactly the data the console sent if
/// the byte is the data's checksum, and fails with a checksum mismatch if
/// it is not.
pub proof fn lemma_exchange_attempt(memory: Memory, data: Seq<u8>, answer: u8)
    requires
        memory.address != RESET,
        data.len() == memory.size,
    ensures
        AttemptView::start(memory).run(exchange(memory, data, answer)) == (AttemptView {
            memory,
            stage: if answer == checksum(data) {
                Stage::Done
            } else {
                Stage::Failed(ProtocolError::ChecksumMismatch)
            },
            response: data,
        }),
        !AttemptView::start(memory).run(exchange(memory, data, answer).drop_last()).finished(),
{
    let start = AttemptView::start(memory);
    let front = greeting() + echoes(memory) + bytes(data);
    lemma_exchange_data(memory, data);
    assert(exchange(memory, data, answer) == front.push(Event::Byte(answer)));
    assert(exchange(memory, data, answer).drop_last() == front);
    start.lemma_run_push(front, Event::Byte(answer));
}

impl RetryView {
    /// The read after a sequence of events, taken in order.
    pub open spec fn run(self, events: Seq<Event>) -> RetryView
        decreases events.len(),
    {
        if events.len() == 0 {
            self
        } else {
            self.run(events.drop_last()).next(events.last())
        }
    }

    /// The read when the attempt under way has come to `attempt`: a
    /// failure is counted and answered with a fresh attempt while the read
    /// has one left.
    pub open spec fn settle(self, attempt: AttemptView) -> RetryView {
        match attempt.stage {
            Stage::Failed(error) => RetryView {
                failures: self.failures + 1,
                last: Some(error),
                attempt: if self.failures + 1 < ATTEMPTS {
                    AttemptView::start(self.memory())
                } else {
                    attempt
                },
            },
            _ => RetryView { attempt, ..self },
        }
    }

    /// Running two sequences in a row is running the second from where the
    /// first one ended.
    pub proof fn lemma_run_concat(self, first: Seq<Event>, second: Seq<Event>)
        ensures
            self.run(first + second) == self.run(first).run(second),
        decreases second.len(),
    {
        if second.len() == 0 {
            assert(first + second == first);
        } else {
            assert((first + second).drop_last() == first + second.drop_last());
            self.lemma_run_concat(first, second.drop_last());
        }
    }

    /// No sequence of events takes a well-formed read out of shape or to
    /// another region, lowers its count of failures, or moves a read that
    /// has ended.
    pub proof fn lemma_run_wf(self, events: Seq<Event>)
        requires
            self.wf(),
        ensures
            self.run(events).wf(),
            self.run(events).memory() == self.memory(),
            self.run(events).failures >= self.failures,
            self.finished() ==> self.run(events) == self,
        decreases events.len(),
    {
        if events.len() > 0 {
            let before = self.run(events.drop_last());
            self.lemma_run_wf(events.drop_last());
            before.lemma_next_wf(events.last());
            before.lemma_failures_count(events.last());
        }
    }

    /// While the attempt under way runs, the read does what the attempt
    /// does, and it settles the attempt's end when that comes.
    pub proof fn lemma_run_attempt(self, events: Seq<Event>)
        requires
            self.wf(),
            !self.finished(),
            events.len() > 0,
            !self.attempt.run(events.drop_last()).finished(),
        ensures
            self.run(events) == self.settle(self.attempt.run(events)),
        decreases events.len(),
    {
        let front = events.drop_last();
        self.attempt.lemma_run_wf(front);
        if front.len() > 0 {
            self.attempt.lemma_run_unfinished(front, front.len() - 1);
            assert(front.take(front.len() - 1) == front.drop_last());
            self.lemma_run_attempt(front);
        }
    }
}

/// A read whose attempt is fresh, met by one exchange with a console that
/// keeps to the protocol: a matching checksum byte ends the read with the
/// data the console sent and leaves the count of failures as it was; any
/// other counts one failure, for a checksum mismatch, and leaves a fresh
/// attempt or, if it was the last attempt, an exhausted read.
pub proof fn lemma_exchange_read(read: RetryView, data: Seq<u8>, answer: u8)
    requires
        read.wf(),
        read.failures < ATTEMPTS,
        read.attempt == AttemptView::start(read.memory()),
        data.len() == read.memory().size,
    ensures
        answer == checksum(data) ==> read.run(exchange(read.memory(), data, answer)).outcome()
            == Some(Ok::<Seq<u8>, ProtocolError>(data)) && read.run(
            exchange(read.memory(), data, answer),
        ).failures == read.failures,
        answer != checksum(data) ==> read.run(exchange(read.memory(), data, answer)) == (RetryView {
            failures: read.failures + 1,
            last: Some(ProtocolError::ChecksumMismatch),
            attempt: if read.failures + 1 < ATTEMPTS {
                AttemptView::start(read.memory())
            } else {
                AttemptView {
                    memory: read.memory(),
                    stage: Stage::Failed(ProtocolError::ChecksumMismatch),
                    response: data,
                }
            },
        }),
{
    let events = exchange(read.memory(), data, answer);
    lemma_exchange_attempt(read.memory(), data, answer);
    read.lemma_run_attempt(events);
}

/// A read against a console that keeps to the protocol but sends a wrong
/// checksum byte in each of its first exchanges, fewer than the read has
/// attempts, and the right one after them: the read returns exactly the
/// data the console sent, after exactly as many failed attempts as there
/// were wrong checksum bytes. With no wrong checksum byte the read
/// succeeds in its first attempt.
pub proof fn lemma_read_recovers(memory: Memory, data: Seq<u8>, wrong: Seq<u8>)
    requires
        memory.address != RESET,
        data.len() == memory.size,
        wrong.len() < ATTEMPTS,
        forall|i: int| 0 <= i < wrong.len() ==> wrong[i] != checksum(data),
    ensures
        RetryView::start(memory).run(
            exchanges(memory, data, wrong.push(checksum(data) as u8)),
        ).outcome() == Some(Ok::<Seq<u8>, ProtocolError>(data)),
        RetryView::start(memory).run(
            exchanges(memory, data, wrong.push(checksum(data) as u8)),
        ).failures == wrong.len(),
{
    let start = RetryView::start(memory);
    let answer = checksum(data) as u8;
    lemma_checksum_push(data, 0);
    lemma_read_fails(memory, data, wrong);
    let failed = start.run(exchanges(memory, data, wrong));
    assert(wrong.push(answer).drop_last() == wrong);
    start.lemma_run_concat(exchanges(memory, data, wrong), exchange(memory, data, answer));
    lemma_exchange_read(failed, data, answer);
}

/// A read against a console that keeps to the protocol but sends a wrong
/// checksum byte every time: each exchange costs one attempt, and with the
/// last attempt the read is exhausted.
pub proof fn lemma_read_fails(memory: Memory, data: Seq<u8>, wrong: Seq<u8>)
    requires
        memory.address != RESET,
        data.len() == memory.size,
        wrong.len() <= ATTEMPTS,
        forall|i: int| 0 <= i < wrong.len() ==> wrong[i] != checksum(data),
    ensures
        RetryView::start(memory).run(exchanges(memory, data, wrong)).wf(),
        RetryView::start(memory).run(exchanges(memory, data, wrong)).memory() == memory,
        RetryView::start(memory).run(exchanges(memory, data, wrong)).failures == wrong.len(),
        wrong.len() < ATTEMPTS ==> RetryView::start(memory).run(
            exchanges(memory, data, wrong),
        ).attempt == AttemptView::start(memory),
        wrong.len() == ATTEMPTS ==> RetryView::start(memory).run(
            exchanges(memory, data, wrong),
        ).outcome() == Some(Err::<Seq<u8>, ProtocolError>(ProtocolError::ReadExhausted)),
    decreases wrong.len(),
{
    let start = RetryView::start(memory);
    if wrong.len() > 0 {
        let front = wrong.drop_last();
        lemma_read_fails(memory, data, front);
        let failed = start.run(exchanges(memory, data, front));
        start.lemma_run_concat(
            exchanges(memory, data, front),
            exchange(memory, data, wrong.last()),
        );
        lemma_exchange_read(failed, data, wrong.last());
        start.lemma_run_wf(exchanges(memory, data, wrong));
    }
}

} // verus!
