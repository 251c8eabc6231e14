//! One request-response exchange with the device, as a state machine.
//!
//! The machine names the port action that is due; the driver performs it and
//! reports what happened; the machine answers with its next state or with the
//! result of the exchange. The driver must hold the port for itself from the
//! first action to the result, so that exchanges never interleave on the wire.

use vstd::prelude::*;
use crate::error::{text_outcome, ClearPoint, Failure, ServoError};

verus! {

/// How long the device gets to process a command before its response is
/// read, in milliseconds.
pub const SETTLE_AFTER_WRITE_MS: u64 = 200;

/// The number of bytes that a response may hold and still go on; the byte
/// that takes it beyond this ends it.
pub const MAX_RESPONSE_BYTES: usize = 256;

/// The bound on every read and write of the port, in milliseconds.
pub const IO_TIMEOUT_MS: u64 = 12000;

/// An action on the serial port, for the driver to perform.
#[derive(Clone, Copy, Debug, PartialEq, Eq, Structural)]
pub enum Action {
    /// Open the configured device with this bound on reads and writes.
    Open { timeout_ms: u64 },
    /// Discard what the input buffer holds.
    ClearInput,
    /// Write the whole command of the exchange.
    Write,
    /// Push the written bytes out to the device.
    Drain,
    /// Wait this many milliseconds.
    Settle(u64),
    /// Read one byte.
    Read,
}

/// What came of an action.
#[derive(Clone, Copy, Debug, PartialEq, Eq, Structural)]
pub enum PortEvent {
    /// The action completed; a read completed without a byte.
    Done,
    /// The action failed.
    Failed,
    /// A read returned this byte.
    Byte(u8),
    /// The action ran into the port's timeout.
    TimedOut,
}

/// How far an exchange has come; each phase waits for the outcome of one
/// action.
#[derive(Clone, Copy, Debug, PartialEq, Eq, Structural)]
pub enum Phase {
    Clearing,
    Writing,
    Draining,
    Settling,
    Reading,
}

/// An exchange in progress.
#[derive(Debug, PartialEq, Eq)]
pub struct Exchange {
    pub command: String,
    pub phase: Phase,
    pub received: Vec<u8>,
}

/// The mathematical value of an [`Exchange`].
pub ghost struct ExchangeModel {
    pub command: Seq<char>,
    pub phase: Phase,
    pub received: Seq<u8>,
}

impl View for Exchange {
    type V = ExchangeModel;

    open spec fn view(&self) -> ExchangeModel {
        ExchangeModel { command: self.command@, phase: self.phase, received: self.received@ }
    }
}

/// An exchange after an event: still under way, or complete with the raw
/// response or a failure.
#[derive(Debug, PartialEq, Eq)]
pub enum Progress {
    Continue(Exchange),
    Complete(Result<String, ServoError>),
}

pub ghost enum ProgressModel {
    Continue(ExchangeModel),
    Complete(Result<Seq<char>, Failure>),
}

impl View for Progress {
    type V = ProgressModel;

    open spec fn view(&self) -> ProgressModel {
        match *self {
            Progress::Continue(x) => ProgressModel::Continue(x@),
            Progress::Complete(r) => ProgressModel::Complete(text_outcome(r)),
        }
    }
}

/// The text that the received bytes stand for: their UTF-8 reading, with the
/// replacement character in place of what is no valid UTF-8.
pub uninterp spec fn lossy_text(bytes: Seq<u8>) -> Seq<char>;

/// Whether every byte is an ASCII character.
pub open spec fn is_ascii_bytes(bytes: Seq<u8>) -> bool {
    forall|i: int| 0 <= i < bytes.len() ==> #[trigger] bytes[i] < 128
}

/// The characters that ASCII bytes are, one for each byte.
pub open spec fn ascii_text(bytes: Seq<u8>) -> Seq<char> {
    Seq::new(bytes.len(), |i: int| bytes[i] as char)
}

/// The text of a response: ASCII bytes are their characters; of any other
/// bytes only the name of their reading is known.
pub open spec fn received_text(bytes: Seq<u8>) -> Seq<char> {
    if is_ascii_bytes(bytes) {
        ascii_text(bytes)
    } else {
        lossy_text(bytes)
    }
}

/// An exchange that has not started: its first action is due.
pub open spec fn fresh(command: Seq<char>) -> ExchangeModel {
    ExchangeModel { command, phase: Phase::Clearing, received: Seq::empty() }
}

/// The action that is due in a phase.
pub open spec fn due(phase: Phase) -> Action {
    match phase {
        Phase::Clearing => Action::ClearInput,
        Phase::Writing => Action::Write,
        Phase::Draining => Action::Drain,
        Phase::Settling => Action::Settle(SETTLE_AFTER_WRITE_MS),
        Phase::Reading => Action::Read,
    }
}

/// The exchange `x` after `event`.
///
/// Clearing, writing and draining go on when they complete and fail the
/// exchange otherwise. Waiting cannot fail. A byte is added to the response;
/// a newline, or a byte beyond [`MAX_RESPONSE_BYTES`], ends it. A read
/// without a byte or a timeout ends the response too; a failed read fails
/// the exchange.
pub open spec fn advanced(x: ExchangeModel, event: PortEvent) -> ProgressModel {
    match x.phase {
        Phase::Clearing => if event == PortEvent::Done {
            ProgressModel::Continue(ExchangeModel { phase: Phase::Writing, ..x })
        } else {
            ProgressModel::Complete(Err(Failure::ClearInput(ClearPoint::BeforeSending)))
        },
        Phase::Writing => if event == PortEvent::Done {
            ProgressModel::Continue(ExchangeModel { phase: Phase::Draining, ..x })
        } else {
            ProgressModel::Complete(Err(Failure::Write))
        },
        Phase::Draining => if event == PortEvent::Done {
            ProgressModel::Continue(ExchangeModel { phase: Phase::Settling, ..x })
        } else {
            ProgressModel::Complete(Err(Failure::Drain))
        },
        Phase::Settling => ProgressModel::Continue(ExchangeModel { phase: Phase::Reading, ..x }),
        Phase::Reading => match event {
            PortEvent::Byte(b) => {
                let received = x.received.push(b);
                if b == 10 || received.len() > MAX_RESPONSE_BYTES {
                    ProgressModel::Complete(Ok(received_text(received)))
                } else {
                    ProgressModel::Continue(ExchangeModel { received, ..x })
                }
            },
            PortEvent::Done => ProgressModel::Complete(Ok(received_text(x.received))),
            PortEvent::TimedOut => ProgressModel::Complete(Ok(received_text(x.received))),
            PortEvent::Failed => ProgressModel::Complete(Err(Failure::Read)),
        },
    }
}

impl ExchangeModel {
    /// An exchange holds no byte before it reads, and never more than
    /// [`MAX_RESPONSE_BYTES`] while it goes on.
    pub open spec fn wf(self) -> bool {
        &&& self.received.len() <= MAX_RESPONSE_BYTES
        &&& self.phase != Phase::Reading ==> self.received.len() == 0
    }
}

/// A fresh exchange is well formed, and an exchange that goes on stays so
/// and keeps its command. One that ends with a response ends while reading;
/// the response is the text of what it held, with at most the last byte
/// added, and of no more than one byte beyond [`MAX_RESPONSE_BYTES`].
pub proof fn exchange_stays_bounded(x: ExchangeModel, event: PortEvent, command: Seq<char>)
    requires
        x.wf(),
    ensures
        fresh(command).wf(),
        advanced(x, event) matches ProgressModel::Continue(y) ==> y.wf() && y.command == x.command,
        advanced(x, event) matches ProgressModel::Complete(Ok(text)) ==> x.phase == Phase::Reading
            && exists|bytes: Seq<u8>|
            {
                &&& text == #[trigger] received_text(bytes)
                &&& bytes.len() <= MAX_RESPONSE_BYTES + 1
                &&& x.received.is_prefix_of(bytes)
                &&& bytes.len() <= x.received.len() + 1
            },
{
    if x.phase == Phase::Reading {
        match event {
            PortEvent::Byte(b) => {
                let received = x.received.push(b);
                if b == 10 || received.len() > MAX_RESPONSE_BYTES {
                    assert(x.received.is_prefix_of(received));
                    assert(advanced(x, event) == ProgressModel::Complete(Ok(received_text(received))));
                }
            },
            PortEvent::Done => {
                assert(x.received.is_prefix_of(x.received));
            },
            PortEvent::TimedOut => {
                assert(x.received.is_prefix_of(x.received));
            },
            PortEvent::Failed => {},
        }
    }
}

/// The exchange after the events of `events`, one after the other, as long
/// as it goes on.
pub open spec fn advanced_through(x: ExchangeModel, events: Seq<PortEvent>) -> ProgressModel
    decreases events.len(),
{
    if events.len() == 0 {
        ProgressModel::Continue(x)
    } else {
        match advanced(x, events[0]) {
            ProgressModel::Continue(y) => advanced_through(y, events.drop_first()),
            done => done,
        }
    }
}

/// An exchange in which nothing fails clears the input, writes, drains and
/// waits, in this order and once each, and then reads; until then the
/// command stays as it is and no byte is held.
pub proof fn actions_come_in_order(command: Seq<char>)
    ensures
        due(fresh(command).phase) == Action::ClearInput,
        advanced_through(fresh(command), seq![PortEvent::Done]) == ProgressModel::Continue(
            ExchangeModel { phase: Phase::Writing, ..fresh(command) },
        ),
        advanced_through(fresh(command), seq![PortEvent::Done, PortEvent::Done])
            == ProgressModel::Continue(ExchangeModel { phase: Phase::Draining, ..fresh(command) }),
        advanced_through(fresh(command), seq![PortEvent::Done, PortEvent::Done, PortEvent::Done])
            == ProgressModel::Continue(ExchangeModel { phase: Phase::Settling, ..fresh(command) }),
        advanced_through(
            fresh(command),
            seq![PortEvent::Done, PortEvent::Done, PortEvent::Done, PortEvent::Done],
        ) == ProgressModel::Continue(ExchangeModel { phase: Phase::Reading, ..fresh(command) }),
{
    reveal_with_fuel(advanced_through, 5);
    let d = PortEvent::Done;
    assert(seq![d].drop_first() =~= Seq::<PortEvent>::empty());
    assert(seq![d, d].drop_first() =~= seq![d]);
    assert(seq![d, d, d].drop_first() =~= seq![d, d]);
    assert(seq![d, d, d, d].drop_first() =~= seq![d, d, d]);
}

/// The events of reading `bytes` one by one.
pub open spec fn reads_of(bytes: Seq<u8>) -> Seq<PortEvent> {
    Seq::new(bytes.len(), |i: int| PortEvent::Byte(bytes[i]))
}

/// A reading exchange that is given a line, byte by byte, ends with what it
/// held before and the whole line, newline included, as long as that is no
/// more than one byte beyond [`MAX_RESPONSE_BYTES`].
pub proof fn line_is_read_whole(x: ExchangeModel, line: Seq<u8>)
    requires
        x.phase == Phase::Reading,
        line.len() > 0,
        line.last() == 10,
        forall|i: int| 0 <= i < line.len() - 1 ==> line[i] != 10,
        x.received.len() + line.len() <= MAX_RESPONSE_BYTES + 1,
    ensures
        advanced_through(x, reads_of(line)) == ProgressModel::Complete(
            Ok(received_text(x.received + line)),
        ),
    decreases line.len(),
{
    let events = reads_of(line);
    assert(events[0] == PortEvent::Byte(line[0]));
    let received = x.received.push(line[0]);
    if line.len() == 1 {
        assert(received =~= x.received + line);
    } else {
        let y = ExchangeModel { received, ..x };
        let rest = line.drop_first();
        assert(advanced(x, events[0]) == ProgressModel::Continue(y));
        assert(events.drop_first() =~= reads_of(rest));
        assert(y.received + rest =~= x.received + line);
        line_is_read_whole(y, rest);
    }
}

/// A reading exchange that is given bytes without a newline and then
/// nothing more, by a read without a byte or by a timeout, ends with what it
/// held before and those bytes, as long as that is no more than
/// [`MAX_RESPONSE_BYTES`].
pub proof fn silence_ends_the_response(x: ExchangeModel, bytes: Seq<u8>, last: PortEvent)
    requires
        x.phase == Phase::Reading,
        last == PortEvent::Done || last == PortEvent::TimedOut,
        forall|i: int| 0 <= i < bytes.len() ==> bytes[i] != 10,
        x.received.len() + bytes.len() <= MAX_RESPONSE_BYTES,
    ensures
        advanced_through(x, reads_of(bytes).push(last)) == ProgressModel::Complete(
            Ok(received_text(x.received + bytes)),
        ),
    decreases bytes.len(),
{
    let events = reads_of(bytes).push(last);
    if bytes.len() == 0 {
        assert(events[0] == last);
        assert(x.received + bytes =~= x.received);
    } else {
        assert(events[0] == PortEvent::Byte(bytes[0]));
        let y = ExchangeModel { received: x.received.push(bytes[0]), ..x };
        let rest = bytes.drop_first();
        assert(advanced(x, events[0]) == ProgressModel::Continue(y));
        assert(events.drop_first() =~= reads_of(rest).push(last));
        assert(y.received + rest =~= x.received + bytes);
        silence_ends_the_response(y, rest, last);
    }
}

/// A reading exchange that is given bytes without a newline ends with the
/// byte that takes it beyond [`MAX_RESPONSE_BYTES`].
pub proof fn runaway_response_is_cut(x: ExchangeModel, bytes: Seq<u8>)
    requires
        x.phase == Phase::Reading,
        bytes.len() > 0,
        forall|i: int| 0 <= i < bytes.len() ==> bytes[i] != 10,
        x.received.len() + bytes.len() == MAX_RESPONSE_BYTES + 1,
    ensures
        advanced_through(x, reads_of(bytes)) == ProgressModel::Complete(
            Ok(received_text(x.received + bytes)),
        ),
    decreases bytes.len(),
{
    let events = reads_of(bytes);
    assert(events[0] == PortEvent::Byte(bytes[0]));
    let received = x.received.push(bytes[0]);
    if bytes.len() == 1 {
        assert(received =~= x.received + bytes);
    } else {
        let y = ExchangeModel { received, ..x };
        let rest = bytes.drop_first();
        assert(advanced(x, events[0]) == ProgressModel::Continue(y));
        assert(events.drop_first() =~= reads_of(rest));
        assert(y.received + rest =~= x.received + bytes);
        runaway_response_is_cut(y, rest);
    }
}

/// Reads bytes as text.
///
/// Trusted: calls `String::from_utf8_lossy` of the standard library. Its
/// result depends on the bytes alone, and the contract gives it the name
/// [`lossy_text`]. The function is documented to hand valid UTF-8 back
/// unchanged; of that the contract claims the ASCII part only: bytes that are
/// all below 128 come back as the characters of the same codes.
#[verifier::external_body]
fn read_lossy(bytes: &Vec<u8>) -> (text: String)
    ensures
        text@ == lossy_text(bytes@),
        is_ascii_bytes(bytes@) ==> text@ == ascii_text(bytes@),
{
    String::from_utf8_lossy(bytes).into_owned()
}

/// The bytes of `received` with `b` after them.
fn with_byte(received: &Vec<u8>, b: u8) -> (v: Vec<u8>)
    ensures
        v@ == received@.push(b),
{
    let mut v: Vec<u8> = Vec::new();
    let mut i: usize = 0;
    while i < received.len()
        invariant
            i <= received@.len(),
            v@ == received@.take(i as int),
        decreases received@.len() - i,
    {
        v.push(received[i]);
        proof {
            assert(v@ =~= received@.take(i + 1));
        }
        i += 1;
    }
    proof {
        assert(received@.take(received@.len() as int) =~= received@);
    }
    v.push(b);
    v
}

impl Exchange {
    /// An exchange that will send `command`.
    pub fn begin(command: String) -> (x: Exchange)
        ensures
            x@ == fresh(command@),
    {
        Exchange { command, phase: Phase::Clearing, received: Vec::new() }
    }

    /// The action that is due.
    pub fn action(&self) -> (a: Action)
        ensures
            a == due(self.phase),
    {
        match self.phase {
            Phase::Clearing => Action::ClearInput,
            Phase::Writing => Action::Write,
            Phase::Draining => Action::Drain,
            Phase::Settling => Action::Settle(SETTLE_AFTER_WRITE_MS),
            Phase::Reading => Action::Read,
        }
    }

    /// The command to write, as text.
    pub fn command(&self) -> (c: &str)
        ensures
            c@ == self.command@,
    {
        self.command.as_str()
    }

    /// What `event` would end the exchange with: nothing while the exchange
    /// would go on, and else the raw response or the failure. The exchange
    /// itself stays as it is.
    pub fn conclusion(&self, event: PortEvent) -> (r: Option<Result<String, ServoError>>)
        ensures
            match advanced(self@, event) {
                ProgressModel::Continue(_) => r.is_none(),
                ProgressModel::Complete(c) => r matches Some(x) && text_outcome(x) == c,
            },
    {
        let done: bool = match event {
            PortEvent::Done => true,
            _ => false,
        };
        match self.phase {
            Phase::Clearing => if done {
                None
            } else {
                Some(Err(ServoError::ClearInput(ClearPoint::BeforeSending)))
            },
            Phase::Writing => if done {
                None
            } else {
                Some(Err(ServoError::Write))
            },
            Phase::Draining => if done {
                None
            } else {
                Some(Err(ServoError::Drain))
            },
            Phase::Settling => None,
            Phase::Reading => match event {
                PortEvent::Byte(b) => {
                    if b == 10 || self.received.len() >= MAX_RESPONSE_BYTES {
                        Some(Ok(read_lossy(&with_byte(&self.received, b))))
                    } else {
                        None
                    }
                },
                PortEvent::Done => Some(Ok(read_lossy(&self.received))),
                PortEvent::TimedOut => Some(Ok(read_lossy(&self.received))),
                PortEvent::Failed => Some(Err(ServoError::Read)),
            },
        }
    }

    /// Takes the outcome of the action that was due.
    pub fn advance(self, event: PortEvent) -> (p: Progress)
        ensures
            p@ == advanced(self@, event),
    {
        let Exchange { command, phase, received } = self;
        let done: bool = match event {
            PortEvent::Done => true,
            _ => false,
        };
        match phase {
            Phase::Clearing => if done {
                Progress::Continue(Exchange { command, phase: Phase::Writing, received })
            } else {
                Progress::Complete(Err(ServoError::ClearInput(ClearPoint::BeforeSending)))
            },
            Phase::Writing => if done {
                Progress::Continue(Exchange { command, phase: Phase::Draining, received })
            } else {
                Progress::Complete(Err(ServoError::Write))
            },
            Phase::Draining => if done {
                Progress::Continue(Exchange { command, phase: Phase::Settling, received })
            } else {
                Progress::Complete(Err(ServoError::Drain))
            },
            Phase::Settling => Progress::Continue(
                Exchange { command, phase: Phase::Reading, received },
            ),
            Phase::Reading => match event {
                PortEvent::Byte(b) => {
                    let mut received = received;
                    received.push(b);
                    if b == 10 || received.len() > MAX_RESPONSE_BYTES {
                        Progress::Complete(Ok(read_lossy(&received)))
                    } else {
                        Progress::Continue(Exchange { command, phase: Phase::Reading, received })
                    }
                },
                PortEvent::Done => Progress::Complete(Ok(read_lossy(&received))),
                PortEvent::TimedOut => Progress::Complete(Ok(read_lossy(&received))),
                PortEvent::Failed => Progress::Complete(Err(ServoError::Read)),
            },
        }
    }
}

} // verus!
