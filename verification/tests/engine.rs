use std::collections::VecDeque;
use ws2300::{
    Action, Attempt, Device, Event, Handshake, Memory, ProtocolError, Retry, Stage, Sweep,
};

/// A console at the far end of the channel, as far as the protocol shows it.
struct Console {
    data: Vec<u8>,
    store: Vec<(u16, Vec<u8>)>,
    dead: Option<u16>,
    address: u16,
    busy: u32,
    corrupt_checksums: u32,
    corrupt_echo_at: Option<usize>,
    silent: bool,
    fail_flush: bool,
    fail_write: bool,
    pending: VecDeque<u8>,
    sequence: usize,
    resets: u32,
    slept: Vec<u64>,
    written: Vec<u8>,
}

impl Console {
    fn new(data: &[u8]) -> Console {
        Console {
            data: data.to_vec(),
            store: Vec::new(),
            dead: None,
            address: 0,
            busy: 0,
            corrupt_checksums: 0,
            corrupt_echo_at: None,
            silent: false,
            fail_flush: false,
            fail_write: false,
            pending: VecDeque::new(),
            sequence: 0,
            resets: 0,
            slept: Vec::new(),
            written: Vec::new(),
        }
    }

    fn perform(&mut self, action: Action) -> Event {
        match action {
            Action::Flush => {
                if self.fail_flush {
                    return Event::Failed;
                }
                self.pending.clear();
                Event::Done
            }
            Action::Write(byte) => {
                if self.fail_write {
                    return Event::Failed;
                }
                self.written.push(byte);
                if self.silent {
                    return Event::Done;
                }
                if byte == 0x06 {
                    self.resets += 1;
                    self.sequence = 0;
                    for _ in 0..self.busy {
                        self.pending.push_back(0x01);
                    }
                    self.busy = 0;
                    self.pending.push_back(0x02);
                    return Event::Done;
                }
                let mut echo = if self.sequence < 4 {
                    self.sequence as u8 * 16 + (byte - 0x82) / 4
                } else {
                    0x30 + (byte - 0xC2) / 4
                };
                if self.corrupt_echo_at == Some(self.sequence) {
                    echo ^= 0x01;
                }
                self.pending.push_back(echo);
                if self.sequence < 4 {
                    self.address = self.address << 4 | ((byte - 0x82) / 4) as u16;
                }
                if self.sequence == 4 && self.dead != Some(self.address) {
                    let stored = self.store.iter().find(|(address, _)| *address == self.address);
                    let data = stored.map_or(self.data.clone(), |(_, data)| data.clone());
                    let mut sum = 0u8;
                    for byte in &data {
                        self.pending.push_back(*byte);
                        sum = sum.wrapping_add(*byte);
                    }
                    if self.corrupt_checksums > 0 {
                        self.corrupt_checksums -= 1;
                        sum = sum.wrapping_add(1);
                    }
                    self.pending.push_back(sum);
                }
                self.sequence += 1;
                Event::Done
            }
            Action::Read => match self.pending.pop_front() {
                Some(byte) => Event::Byte(byte),
                None => Event::Failed,
            },
            Action::Sleep(milliseconds) => {
                self.slept.push(milliseconds);
                Event::Done
            }
        }
    }
}

fn run(console: &mut Console, memory: &Memory) -> (Result<Vec<u8>, ProtocolError>, u32, usize) {
    let mut read = Retry::new(memory);
    let mut events = 0usize;
    while let Some(action) = read.action() {
        let event = console.perform(action);
        read = Device::try_read(read, event);
        events += 1;
        assert!(events < 10_000_000);
    }
    let failures = read.failures();
    (read.finish().expect("the read has ended"), failures, events)
}

fn run_attempt(console: &mut Console, memory: &Memory) -> Result<Vec<u8>, ProtocolError> {
    let mut attempt = Attempt::new(memory);
    while let Some(action) = attempt.action() {
        let event = console.perform(action);
        attempt = Device::read(attempt, event);
    }
    attempt.finish().expect("the attempt has ended")
}

fn feed(mut handshake: Handshake, events: &[Event]) -> Handshake {
    for event in events {
        handshake = Device::reset(handshake, *event);
    }
    handshake
}

const INDOOR: Memory = Memory { address: 0x346, size: 2 };

#[test]
fn handshake_starts_by_flushing() {
    let handshake = Handshake::new();
    assert_eq!(handshake, Handshake::Flushing { round: 0 });
    assert_eq!(handshake.action(), Some(Action::Flush));
    assert_eq!(handshake.outcome(), None);
}

#[test]
fn handshake_is_ready_on_the_ready_byte() {
    let mut handshake = Handshake::new();
    handshake = Device::reset(handshake, Event::Done);
    assert_eq!(handshake, Handshake::Resetting { round: 0 });
    assert_eq!(handshake.action(), Some(Action::Write(0x06)));
    handshake = Device::reset(handshake, Event::Done);
    assert_eq!(handshake, Handshake::Probing { round: 0, reads: 0 });
    assert_eq!(handshake.action(), Some(Action::Read));
    handshake = Device::reset(handshake, Event::Byte(0x02));
    assert_eq!(handshake, Handshake::Ready);
    assert_eq!(handshake.action(), None);
    assert_eq!(handshake.outcome(), Some(Ok(())));
}

#[test]
fn handshake_reads_on_while_the_console_is_busy() {
    let mut events = vec![Event::Done, Event::Done];
    events.extend([Event::Byte(0x01); 9]);
    let handshake = feed(Handshake::new(), &events);
    assert_eq!(handshake, Handshake::Probing { round: 0, reads: 9 });
    assert_eq!(Device::reset(handshake, Event::Byte(0x02)), Handshake::Ready);
    assert_eq!(Device::reset(handshake, Event::Byte(0x01)), Handshake::Backoff { round: 0 });
}

#[test]
fn handshake_abandons_the_round_on_anything_else() {
    let probing = feed(Handshake::new(), &[Event::Done, Event::Done]);
    assert_eq!(Device::reset(probing, Event::Byte(0x00)), Handshake::Backoff { round: 0 });
    assert_eq!(Device::reset(probing, Event::Byte(0x03)), Handshake::Backoff { round: 0 });
    assert_eq!(Device::reset(probing, Event::Byte(0xFF)), Handshake::Backoff { round: 0 });
    assert_eq!(Device::reset(probing, Event::Failed), Handshake::Backoff { round: 0 });
    assert_eq!(Device::reset(probing, Event::Done), Handshake::Backoff { round: 0 });
}

#[test]
fn handshake_fails_when_the_flush_or_the_write_fails() {
    let failed = Handshake::Failed(ProtocolError::ChannelIo);
    assert_eq!(Device::reset(Handshake::new(), Event::Failed), failed);
    assert_eq!(Device::reset(Handshake::new(), Event::Byte(0x02)), failed);
    let resetting = Device::reset(Handshake::new(), Event::Done);
    assert_eq!(Device::reset(resetting, Event::Failed), failed);
    assert_eq!(failed.outcome(), Some(Err(ProtocolError::ChannelIo)));
    assert_eq!(failed.action(), None);
}

#[test]
fn handshake_pauses_longer_after_each_round() {
    let mut handshake = Handshake::new();
    for round in 0..100u32 {
        assert_eq!(handshake, Handshake::Flushing { round });
        handshake = feed(handshake, &[Event::Done, Event::Done, Event::Failed]);
        assert_eq!(handshake, Handshake::Backoff { round });
        assert_eq!(handshake.action(), Some(Action::Sleep(100 * (round as u64 + 1))));
        handshake = Device::reset(handshake, Event::Done);
    }
    assert_eq!(handshake, Handshake::Failed(ProtocolError::HandshakeFailed));
    assert_eq!(handshake.outcome(), Some(Err(ProtocolError::HandshakeFailed)));
}

#[test]
fn handshake_stays_as_it_ended() {
    for event in [Event::Done, Event::Byte(0x02), Event::Byte(0x01), Event::Failed] {
        assert_eq!(Device::reset(Handshake::Ready, event), Handshake::Ready);
        let failed = Handshake::Failed(ProtocolError::HandshakeFailed);
        assert_eq!(Device::reset(failed, event), failed);
    }
}

#[test]
fn handshake_retries_against_a_console_that_wakes_up_late() {
    let mut console = Console::new(&[0x25, 0x51]);
    console.busy = 12;
    let (result, failures, _) = run(&mut console, &INDOOR);
    assert_eq!(result, Ok(vec![0x25, 0x51]));
    assert_eq!(failures, 0);
    assert_eq!(console.resets, 2);
    assert_eq!(console.slept, vec![100]);
}

#[test]
fn attempt_walks_through_the_exchange() {
    let mut attempt = Attempt::new(&INDOOR);
    assert_eq!(attempt.memory(), INDOOR);
    assert_eq!(attempt.stage(), Stage::Handshake(Handshake::Flushing { round: 0 }));
    let script = [
        (Action::Flush, Event::Done),
        (Action::Write(0x06), Event::Done),
        (Action::Read, Event::Byte(0x02)),
        (Action::Write(130), Event::Done),
        (Action::Read, Event::Byte(0)),
        (Action::Write(142), Event::Done),
        (Action::Read, Event::Byte(19)),
        (Action::Write(146), Event::Done),
        (Action::Read, Event::Byte(36)),
        (Action::Write(154), Event::Done),
        (Action::Read, Event::Byte(54)),
        (Action::Write(202), Event::Done),
        (Action::Read, Event::Byte(50)),
        (Action::Read, Event::Byte(0x25)),
        (Action::Read, Event::Byte(0x51)),
        (Action::Read, Event::Byte(0x76)),
    ];
    for (action, event) in script {
        assert_eq!(attempt.action(), Some(action));
        attempt = Device::read(attempt, event);
    }
    assert_eq!(attempt.stage(), Stage::Done);
    assert_eq!(attempt.action(), None);
    assert_eq!(attempt.finish(), Some(Ok(vec![0x25, 0x51])));
}

#[test]
fn attempt_has_no_outcome_while_it_runs() {
    let mut attempt = Attempt::new(&INDOOR);
    attempt = Device::read(attempt, Event::Done);
    assert_eq!(attempt.stage(), Stage::Handshake(Handshake::Resetting { round: 0 }));
    assert_eq!(attempt.finish(), None);
}

#[test]
fn attempt_fails_on_a_wrong_echo() {
    for position in 0..5 {
        let mut console = Console::new(&[0x25, 0x51]);
        console.corrupt_echo_at = Some(position);
        assert_eq!(run_attempt(&mut console, &INDOOR), Err(ProtocolError::EchoMismatch));
        assert_eq!(console.written.len(), 2 + position);
    }
}

#[test]
fn attempt_fails_on_a_wrong_checksum() {
    let mut console = Console::new(&[0x25, 0x51]);
    console.corrupt_checksums = 1;
    assert_eq!(run_attempt(&mut console, &INDOOR), Err(ProtocolError::ChecksumMismatch));
}

#[test]
fn attempt_fails_when_the_channel_fails() {
    let mut console = Console::new(&[0x25]);
    assert_eq!(run_attempt(&mut console, &INDOOR), Err(ProtocolError::ChannelIo));
    let mut console = Console::new(&[0x25, 0x51]);
    console.fail_flush = true;
    assert_eq!(run_attempt(&mut console, &INDOOR), Err(ProtocolError::ChannelIo));
    let mut console = Console::new(&[0x25, 0x51]);
    console.fail_write = true;
    assert_eq!(run_attempt(&mut console, &INDOOR), Err(ProtocolError::ChannelIo));
}

#[test]
fn attempt_fails_when_the_console_never_answers() {
    let mut console = Console::new(&[]);
    console.silent = true;
    assert_eq!(run_attempt(&mut console, &INDOOR), Err(ProtocolError::HandshakeFailed));
    assert_eq!(console.written, vec![0x06; 100]);
    let pauses: Vec<u64> = (1..=100).map(|round| 100 * round).collect();
    assert_eq!(console.slept, pauses);
}

#[test]
fn attempt_reads_a_region_without_bytes() {
    let mut console = Console::new(&[]);
    let memory = Memory { address: 0x100, size: 0 };
    assert_eq!(run_attempt(&mut console, &memory), Ok(vec![]));
}

#[test]
fn read_returns_the_data_without_a_retry() {
    let mut console = Console::new(&[0x25, 0x51]);
    let (result, failures, events) = run(&mut console, &INDOOR);
    assert_eq!(result, Ok(vec![0x25, 0x51]));
    assert_eq!(failures, 0);
    assert_eq!(events, 16);
    assert_eq!(console.written, vec![0x06, 130, 142, 146, 154, 202]);
    assert!(console.slept.is_empty());
}

#[test]
fn read_recovers_from_three_corrupted_checksums() {
    let mut console = Console::new(&[0x2C, 0x01, 0x00]);
    console.corrupt_checksums = 3;
    let (result, failures, events) = run(&mut console, &Memory { address: 0x529, size: 3 });
    assert_eq!(result, Ok(vec![0x2C, 0x01, 0x00]));
    assert_eq!(failures, 3);
    assert_eq!(events, 4 * 17);
    assert_eq!(console.resets, 4);
}

#[test]
fn read_remembers_why_the_latest_attempt_failed() {
    let mut console = Console::new(&[0x45]);
    console.corrupt_checksums = 1;
    let memory = Memory { address: 0x3FB, size: 1 };
    let mut read = Retry::new(&memory);
    assert_eq!(read.last_failure(), None);
    while read.failures() == 0 {
        let event = console.perform(read.action().expect("the read runs"));
        read = Device::try_read(read, event);
    }
    assert_eq!(read.failures(), 1);
    assert_eq!(read.last_failure(), Some(ProtocolError::ChecksumMismatch));
    assert_eq!(read.action(), Some(Action::Flush));
}

#[test]
fn read_is_exhausted_after_fifty_attempts() {
    let mut console = Console::new(&[0x25, 0x51]);
    console.corrupt_checksums = 50;
    let (result, failures, _) = run(&mut console, &INDOOR);
    assert_eq!(result, Err(ProtocolError::ReadExhausted));
    assert_eq!(failures, 50);
    assert_eq!(console.resets, 50);
}

#[test]
fn read_succeeds_on_the_last_attempt() {
    let mut console = Console::new(&[0x25, 0x51]);
    console.corrupt_checksums = 49;
    let (result, failures, _) = run(&mut console, &INDOOR);
    assert_eq!(result, Ok(vec![0x25, 0x51]));
    assert_eq!(failures, 49);
}

#[test]
fn read_is_exhausted_against_a_dead_channel() {
    let mut console = Console::new(&[]);
    console.fail_flush = true;
    let (result, failures, events) = run(&mut console, &INDOOR);
    assert_eq!(result, Err(ProtocolError::ReadExhausted));
    assert_eq!(failures, 50);
    assert_eq!(events, 50);
}

#[test]
fn read_stays_as_it_ended() {
    let mut console = Console::new(&[0x45]);
    let memory = Memory { address: 0x3FB, size: 1 };
    let mut read = Retry::new(&memory);
    while let Some(action) = read.action() {
        let event = console.perform(action);
        read = Device::try_read(read, event);
    }
    read = Device::try_read(read, Event::Byte(0x99));
    read = Device::try_read(read, Event::Failed);
    assert_eq!(read.failures(), 0);
    assert_eq!(read.action(), None);
    assert_eq!(read.finish(), Some(Ok(vec![0x45])));
}

#[test]
fn read_has_no_outcome_while_it_runs() {
    let read = Retry::new(&INDOOR);
    assert_eq!(read.action(), Some(Action::Flush));
    assert_eq!(read.finish(), None);
}

fn stored() -> Vec<(u16, Vec<u8>)> {
    vec![
        (0x346, vec![0x25, 0x51]),
        (0x373, vec![0x75, 0x12]),
        (0x3CE, vec![0x00, 0x30]),
        (0x3FB, vec![0x45]),
        (0x419, vec![0x88]),
        (0x529, vec![0x2C, 0x01, 0x00]),
        (0x52C, vec![0x40]),
        (0x3A0, vec![0x50, 0x23]),
        (0x4B4, vec![0x50, 0x02, 0x00]),
        (0x497, vec![0x34, 0x12, 0x00]),
        (0x4D2, vec![0x35, 0x12, 0x10]),
        (0x5E2, vec![0x32, 0x01, 0x01]),
        (0x26B, vec![0x10]),
    ]
}

fn run_sweep(console: &mut Console, mut sweep: Sweep) -> (Result<Vec<Vec<u8>>, ProtocolError>, usize) {
    while let Some(action) = sweep.action() {
        let event = console.perform(action);
        sweep = Device::read_all(sweep, event);
    }
    let completed = sweep.completed();
    (sweep.finish().expect("the sweep has ended"), completed)
}

#[test]
fn sweep_reads_every_region_of_the_plan() {
    let device = Device::new();
    let mut console = Console::new(&[]);
    console.store = stored();
    console.corrupt_checksums = 2;
    let (result, completed) = run_sweep(&mut console, device.sweep());
    let values = result.expect("every read succeeds");
    assert_eq!(completed, 13);
    let expected: Vec<Vec<u8>> = stored().into_iter().map(|(_, data)| data).collect();
    assert_eq!(values, expected);
    assert_eq!(console.resets, 15);
    let data = device.snapshot(&values);
    assert_eq!(data.temperature_indoor, 213);
    assert_eq!(data.temperature_outdoor, -173);
    assert_eq!(data.humidity_outdoor, 88);
    assert_eq!(data.wind_speed, 300);
    assert_eq!(data.wind_dir, 900);
    assert_eq!(data.wind_direction, "E");
    assert_eq!(data.rain_total, 10124);
    assert_eq!(data.pressure, 10132);
    assert_eq!(data.tendency, "Rising");
    assert_eq!(data.forecast, "Rainy");
}

#[test]
fn sweep_addresses_the_regions_in_order() {
    let device = Device::new();
    let mut console = Console::new(&[]);
    console.store = stored();
    let (result, _) = run_sweep(&mut console, device.sweep());
    assert!(result.is_ok());
    let mut written = Vec::new();
    for region in device.plan() {
        written.push(0x06);
        written.extend(Device::encode_address(&region));
    }
    assert_eq!(console.written, written);
}

#[test]
fn sweep_ends_with_the_first_exhausted_read() {
    let device = Device::new();
    let mut console = Console::new(&[]);
    console.store = stored();
    console.dead = Some(0x3FB);
    let (result, completed) = run_sweep(&mut console, device.sweep());
    assert_eq!(result, Err(ProtocolError::ReadExhausted));
    assert_eq!(completed, 3);
    assert_eq!(console.resets, 3 + 50);
}

#[test]
fn sweep_over_nothing_has_ended() {
    let sweep = Sweep::new(Vec::new());
    assert_eq!(sweep.action(), None);
    assert_eq!(sweep.completed(), 0);
    assert_eq!(sweep.finish(), Some(Ok(Vec::new())));
}

#[test]
fn sweep_has_no_outcome_while_it_runs() {
    let mut sweep = Sweep::new(vec![INDOOR, Memory { address: 0x3FB, size: 1 }]);
    assert_eq!(sweep.action(), Some(Action::Flush));
    sweep = Device::read_all(sweep, Event::Done);
    assert_eq!(sweep.action(), Some(Action::Write(0x06)));
    assert_eq!(sweep.completed(), 0);
    assert_eq!(sweep.finish(), None);
}

#[test]
fn sweep_stays_as_it_ended() {
    let mut console = Console::new(&[0x45]);
    let mut sweep = Sweep::new(vec![Memory { address: 0x3FB, size: 1 }]);
    while let Some(action) = sweep.action() {
        let event = console.perform(action);
        sweep = Device::read_all(sweep, event);
    }
    sweep = Device::read_all(sweep, Event::Failed);
    sweep = Device::read_all(sweep, Event::Byte(0x02));
    assert_eq!(sweep.completed(), 1);
    assert_eq!(sweep.finish(), Some(Ok(vec![vec![0x45]])));
}
