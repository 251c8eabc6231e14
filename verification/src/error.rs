//! The failures of the controller, tagged by cause.

use vstd::prelude::*;
use vstd::string::*;
use crate::text::{decimal, push_decimal};

verus! {

/// A command that the device acknowledges with `OK`.
#[derive(Clone, Copy, Debug, PartialEq, Eq, Structural)]
pub enum WriteOp {
    Start,
    Stop,
    SetAngle,
    SetPwm,
    Pose,
    Move,
}

/// The point at which the input buffer is cleared.
#[derive(Clone, Copy, Debug, PartialEq, Eq, Structural)]
pub enum ClearPoint {
    /// Right after the device was opened and left alone.
    AfterOpening,
    /// Once more, after the device had time to finish its startup output.
    SecondFlush,
    /// Before a command is sent.
    BeforeSending,
}

/// The classes of failure.
#[derive(Clone, Copy, Debug, PartialEq, Eq, Structural)]
pub enum ErrorKind {
    /// The device could not be opened.
    Open,
    /// The input buffer could not be cleared.
    Flush,
    /// The command could not be written.
    Write,
    /// The written command could not be pushed out to the device.
    Drain,
    /// The response could not be read.
    Read,
    /// No live connection.
    NotConnected,
    /// A channel, angle, pulse width or pose length is out of range.
    Validation,
    /// The device answered a command with something other than `OK`.
    Protocol,
    /// The device answered a query in an unexpected shape.
    Parse,
}

/// A failure of an operation.
#[derive(Clone, Debug, PartialEq, Eq)]
pub enum ServoError {
    Open,
    ClearInput(ClearPoint),
    Write,
    Drain,
    Read,
    NotConnected,
    InvalidChannel(u8),
    InvalidAngle(u8),
    InvalidPulse(u16),
    TooManyServos(usize),
    /// The raw response to a command that was not acknowledged.
    Rejected(WriteOp, String),
    /// The raw response to a query that could not be parsed.
    Unparsable(String),
}

/// The mathematical value of a [`ServoError`]: responses are character
/// sequences.
pub ghost enum Failure {
    Open,
    ClearInput(ClearPoint),
    Write,
    Drain,
    Read,
    NotConnected,
    InvalidChannel(u8),
    InvalidAngle(u8),
    InvalidPulse(u16),
    TooManyServos(usize),
    Rejected(WriteOp, Seq<char>),
    Unparsable(Seq<char>),
}

impl View for ServoError {
    type V = Failure;

    open spec fn view(&self) -> Failure {
        match *self {
            ServoError::Open => Failure::Open,
            ServoError::ClearInput(at) => Failure::ClearInput(at),
            ServoError::Write => Failure::Write,
            ServoError::Drain => Failure::Drain,
            ServoError::Read => Failure::Read,
            ServoError::NotConnected => Failure::NotConnected,
            ServoError::InvalidChannel(c) => Failure::InvalidChannel(c),
            ServoError::InvalidAngle(a) => Failure::InvalidAngle(a),
            ServoError::InvalidPulse(p) => Failure::InvalidPulse(p),
            ServoError::TooManyServos(n) => Failure::TooManyServos(n),
            ServoError::Rejected(op, response) => Failure::Rejected(op, response@),
            ServoError::Unparsable(response) => Failure::Unparsable(response@),
        }
    }
}

/// The view of a result whose error is a [`ServoError`].
pub open spec fn outcome<T>(r: Result<T, ServoError>) -> Result<T, Failure> {
    match r {
        Ok(v) => Ok(v),
        Err(e) => Err(e@),
    }
}

/// The view of a result that is a text or a [`ServoError`].
pub open spec fn text_outcome(r: Result<String, ServoError>) -> Result<Seq<char>, Failure> {
    match r {
        Ok(text) => Ok(text@),
        Err(e) => Err(e@),
    }
}

impl Failure {
    pub open spec fn kind(self) -> ErrorKind {
        match self {
            Failure::Open => ErrorKind::Open,
            Failure::ClearInput(_) => ErrorKind::Flush,
            Failure::Write => ErrorKind::Write,
            Failure::Drain => ErrorKind::Drain,
            Failure::Read => ErrorKind::Read,
            Failure::NotConnected => ErrorKind::NotConnected,
            Failure::InvalidChannel(_) => ErrorKind::Validation,
            Failure::InvalidAngle(_) => ErrorKind::Validation,
            Failure::InvalidPulse(_) => ErrorKind::Validation,
            Failure::TooManyServos(_) => ErrorKind::Validation,
            Failure::Rejected(_, _) => ErrorKind::Protocol,
            Failure::Unparsable(_) => ErrorKind::Parse,
        }
    }

    /// A link fault means that the transport is unusable: the device could
    /// not be opened, its input buffer not cleared, a command not written or
    /// not pushed out, or a response not read.
    pub open spec fn is_link_fault(self) -> bool {
        self.kind() == ErrorKind::Open || self.kind() == ErrorKind::Flush || self.kind()
            == ErrorKind::Write || self.kind() == ErrorKind::Drain || self.kind()
            == ErrorKind::Read
    }

    /// The sentence that describes the failure.
    pub open spec fn message(self) -> Seq<char> {
        match self {
            Failure::Open => "Failed to open serial port"@,
            Failure::ClearInput(at) => clear_failure_text(at),
            Failure::Write => "Failed to write to serial port"@,
            Failure::Drain => "Failed to flush serial port"@,
            Failure::Read => "Failed to read from serial port"@,
            Failure::NotConnected => "Serial device not connected"@,
            Failure::InvalidChannel(c) => "Invalid servo channel: "@ + decimal(c as nat),
            Failure::InvalidAngle(a) => "Invalid angle: "@ + decimal(a as nat)
                + " (must be 0-180)"@,
            Failure::InvalidPulse(p) => "Invalid pulse width: "@ + decimal(p as nat)
                + " (must be 0-20000)"@,
            Failure::TooManyServos(n) => "Too many servos: "@ + decimal(n as nat) + " (max 6)"@,
            Failure::Rejected(op, response) => rejection_prefix(op) + response,
            Failure::Unparsable(response) => "Failed to parse servo angle from response: "@
                + response,
        }
    }
}

/// The sentence for a failure to clear the input buffer.
pub open spec fn clear_failure_text(at: ClearPoint) -> Seq<char> {
    match at {
        ClearPoint::AfterOpening => "Failed to clear input buffer"@,
        ClearPoint::SecondFlush => "Failed to clear input buffer (second flush)"@,
        ClearPoint::BeforeSending => "Failed to clear input buffer before sending"@,
    }
}

fn clear_failure_str(at: ClearPoint) -> (s: &'static str)
    ensures
        s@ == clear_failure_text(at),
{
    match at {
        ClearPoint::AfterOpening => "Failed to clear input buffer",
        ClearPoint::SecondFlush => "Failed to clear input buffer (second flush)",
        ClearPoint::BeforeSending => "Failed to clear input buffer before sending",
    }
}

/// How the message of a rejected command begins.
pub open spec fn rejection_prefix(op: WriteOp) -> Seq<char> {
    match op {
        WriteOp::Start => "Failed to enter serial mode: "@,
        WriteOp::Stop => "Failed to exit serial mode: "@,
        WriteOp::SetAngle => "Failed to set servo angle: "@,
        WriteOp::SetPwm => "Failed to set servo PWM: "@,
        WriteOp::Pose => "Failed to execute POSE: "@,
        WriteOp::Move => "Failed to execute MOVE: "@,
    }
}

fn rejection_prefix_text(op: WriteOp) -> (s: &'static str)
    ensures
        s@ == rejection_prefix(op),
{
    match op {
        WriteOp::Start => "Failed to enter serial mode: ",
        WriteOp::Stop => "Failed to exit serial mode: ",
        WriteOp::SetAngle => "Failed to set servo angle: ",
        WriteOp::SetPwm => "Failed to set servo PWM: ",
        WriteOp::Pose => "Failed to execute POSE: ",
        WriteOp::Move => "Failed to execute MOVE: ",
    }
}

fn numbered(before: &str, n: u64, after: &str) -> (s: String)
    ensures
        s@ == before@ + decimal(n as nat) + after@,
{
    let mut s = String::from_str(before);
    push_decimal(&mut s, n);
    s.append(after);
    s
}

impl ServoError {
    pub fn kind(&self) -> (k: ErrorKind)
        ensures
            k == self@.kind(),
    {
        match self {
            ServoError::Open => ErrorKind::Open,
            ServoError::ClearInput(_) => ErrorKind::Flush,
            ServoError::Write => ErrorKind::Write,
            ServoError::Drain => ErrorKind::Drain,
            ServoError::Read => ErrorKind::Read,
            ServoError::NotConnected => ErrorKind::NotConnected,
            ServoError::InvalidChannel(_) => ErrorKind::Validation,
            ServoError::InvalidAngle(_) => ErrorKind::Validation,
            ServoError::InvalidPulse(_) => ErrorKind::Validation,
            ServoError::TooManyServos(_) => ErrorKind::Validation,
            ServoError::Rejected(_, _) => ErrorKind::Protocol,
            ServoError::Unparsable(_) => ErrorKind::Parse,
        }
    }

    /// Whether the failure makes the connection unusable, so that it must be
    /// dropped and opened again.
    pub fn is_link_fault(&self) -> (b: bool)
        ensures
            b == self@.is_link_fault(),
    {
        match self {
            ServoError::Open => true,
            ServoError::ClearInput(_) => true,
            ServoError::Write => true,
            ServoError::Drain => true,
            ServoError::Read => true,
            _ => false,
        }
    }

    /// The sentence that describes the failure.
    pub fn message(&self) -> (s: String)
        ensures
            s@ == self@.message(),
    {
        match self {
            ServoError::Open => String::from_str("Failed to open serial port"),
            ServoError::ClearInput(at) => String::from_str(clear_failure_str(*at)),
            ServoError::Write => String::from_str("Failed to write to serial port"),
            ServoError::Drain => String::from_str("Failed to flush serial port"),
            ServoError::Read => String::from_str("Failed to read from serial port"),
            ServoError::NotConnected => String::from_str("Serial device not connected"),
            ServoError::InvalidChannel(c) => {
                proof {
                    reveal_strlit("");
                    assert("Invalid servo channel: "@ + decimal(*c as nat) + ""@
                        =~= "Invalid servo channel: "@ + decimal(*c as nat));
                }
                numbered("Invalid servo channel: ", *c as u64, "")
            },
            ServoError::InvalidAngle(a) => numbered("Invalid angle: ", *a as u64, " (must be 0-180)"),
            ServoError::InvalidPulse(p) => numbered(
                "Invalid pulse width: ",
                *p as u64,
                " (must be 0-20000)",
            ),
            ServoError::TooManyServos(n) => numbered("Too many servos: ", *n as u64, " (max 6)"),
            ServoError::Rejected(op, response) => String::from_str(
                rejection_prefix_text(*op),
            ).concat(response.as_str()),
            ServoError::Unparsable(response) => String::from_str(
                "Failed to parse servo angle from response: ",
            ).concat(response.as_str()),
        }
    }
}

} // verus!
