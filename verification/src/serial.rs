//! The serial connection: how it is opened, the operations it offers, and the
//! query of all channels.

use vstd::prelude::*;
use vstd::string::*;
use crate::codec::{
    angle_fault, channel_fault, encode_get, encode_move, encode_pose, encode_set_angle,
    encode_set_pwm, encode_start, encode_stop, get_command, get_line, move_line, pose_fault,
    pose_line, pwm_fault, set_angle_line, set_pwm_line, start_line, stop_line, NUM_SERVOS,
};
use crate::error::{outcome, text_outcome, ClearPoint, Failure, ServoError, WriteOp};
use crate::exchange::{
    advanced, advanced_through, ascii_text, due, fresh, is_ascii_bytes, line_is_read_whole,
    reads_of, Action, Exchange, ExchangeModel, Phase, PortEvent, Progress, ProgressModel,
    IO_TIMEOUT_MS,
};
use crate::response::{
    check_ack, is_ack, padded_ok_is_ack, parse_angle_response, reported_angle,
};

verus! {

/// How long a port that was just opened is left alone, in milliseconds.
pub const STABILIZE_MS: u64 = 100;

/// How long the device gets to finish its startup output before the input
/// buffer is cleared once more, in milliseconds.
pub const QUIET_MS: u64 = 500;

/// The steps of opening a connection; each waits for the outcome of one
/// action.
#[derive(Clone, Copy, Debug, PartialEq, Eq, Structural)]
pub enum OpenStage {
    Opening,
    Stabilizing,
    FirstClear,
    Quieting,
    SecondClear,
}

/// A connection that is being opened.
#[derive(Debug, PartialEq, Eq)]
pub struct Opening {
    pub port_name: String,
    pub baud_rate: u32,
    pub stage: OpenStage,
}

/// An open connection to the device on `port_name`.
#[derive(Debug, PartialEq, Eq)]
pub struct SerialManager {
    pub port_name: String,
    pub baud_rate: u32,
}

/// A connection after an event of its opening.
#[derive(Debug, PartialEq, Eq)]
pub enum OpenProgress {
    Continue(Opening),
    Complete(Result<SerialManager, ServoError>),
}

/// What an event does to the opening of a connection: the stage that comes
/// next, `None` when the connection is ready, or the failure.
///
/// The device is opened and left alone for [`STABILIZE_MS`]; the input buffer
/// is cleared, and cleared again after [`QUIET_MS`]. Waiting cannot fail.
pub open spec fn opened(stage: OpenStage, event: PortEvent) -> Result<Option<OpenStage>, Failure> {
    match stage {
        OpenStage::Opening => if event == PortEvent::Done {
            Ok(Some(OpenStage::Stabilizing))
        } else {
            Err(Failure::Open)
        },
        OpenStage::Stabilizing => Ok(Some(OpenStage::FirstClear)),
        OpenStage::FirstClear => if event == PortEvent::Done {
            Ok(Some(OpenStage::Quieting))
        } else {
            Err(Failure::ClearInput(ClearPoint::AfterOpening))
        },
        OpenStage::Quieting => Ok(Some(OpenStage::SecondClear)),
        OpenStage::SecondClear => if event == PortEvent::Done {
            Ok(None)
        } else {
            Err(Failure::ClearInput(ClearPoint::SecondFlush))
        },
    }
}

/// The action that is due at a stage of opening.
pub open spec fn open_due(stage: OpenStage) -> Action {
    match stage {
        OpenStage::Opening => Action::Open { timeout_ms: IO_TIMEOUT_MS },
        OpenStage::Stabilizing => Action::Settle(STABILIZE_MS),
        OpenStage::FirstClear => Action::ClearInput,
        OpenStage::Quieting => Action::Settle(QUIET_MS),
        OpenStage::SecondClear => Action::ClearInput,
    }
}

impl Opening {
    /// The action that is due.
    pub fn action(&self) -> (a: Action)
        ensures
            a == open_due(self.stage),
    {
        match self.stage {
            OpenStage::Opening => Action::Open { timeout_ms: IO_TIMEOUT_MS },
            OpenStage::Stabilizing => Action::Settle(STABILIZE_MS),
            OpenStage::FirstClear => Action::ClearInput,
            OpenStage::Quieting => Action::Settle(QUIET_MS),
            OpenStage::SecondClear => Action::ClearInput,
        }
    }

    /// Takes the outcome of the action that was due.
    pub fn advance(self, event: PortEvent) -> (p: OpenProgress)
        ensures
            match opened(self.stage, event) {
                Ok(Some(stage)) => p == OpenProgress::Continue(
                    Opening { port_name: self.port_name, baud_rate: self.baud_rate, stage },
                ),
                Ok(None) => p == OpenProgress::Complete(
                    Ok(SerialManager { port_name: self.port_name, baud_rate: self.baud_rate }),
                ),
                Err(f) => p matches OpenProgress::Complete(Err(e)) && e@ == f,
            },
    {
        let Opening { port_name, baud_rate, stage } = self;
        let done: bool = match event {
            PortEvent::Done => true,
            _ => false,
        };
        match stage {
            OpenStage::Opening => if done {
                OpenProgress::Continue(Opening { port_name, baud_rate, stage: OpenStage::Stabilizing })
            } else {
                OpenProgress::Complete(Err(ServoError::Open))
            },
            OpenStage::Stabilizing => OpenProgress::Continue(
                Opening { port_name, baud_rate, stage: OpenStage::FirstClear },
            ),
            OpenStage::FirstClear => if done {
                OpenProgress::Continue(Opening { port_name, baud_rate, stage: OpenStage::Quieting })
            } else {
                OpenProgress::Complete(Err(ServoError::ClearInput(ClearPoint::AfterOpening)))
            },
            OpenStage::Quieting => OpenProgress::Continue(
                Opening { port_name, baud_rate, stage: OpenStage::SecondClear },
            ),
            OpenStage::SecondClear => if done {
                OpenProgress::Complete(Ok(SerialManager { port_name, baud_rate }))
            } else {
                OpenProgress::Complete(Err(ServoError::ClearInput(ClearPoint::SecondFlush)))
            },
        }
    }
}

/// The exchange that an operation starts, unless the request is refused:
/// then nothing is sent.
pub open spec fn started(fault: Option<Failure>, line: Seq<char>) -> Result<ExchangeModel, Failure> {
    match fault {
        Some(f) => Err(f),
        None => Ok(fresh(line)),
    }
}

/// The view of an operation's start.
pub open spec fn start_outcome(r: Result<Exchange, ServoError>) -> Result<ExchangeModel, Failure> {
    match r {
        Ok(x) => Ok(x@),
        Err(e) => Err(e@),
    }
}

/// What the raw result of an exchange means for a command: acknowledged, or
/// rejected with the response, or the failure of the exchange itself.
pub open spec fn concluded(op: WriteOp, exchanged: Result<Seq<char>, Failure>) -> Result<
    (),
    Failure,
> {
    match exchanged {
        Ok(response) => if is_ack(response) {
            Ok(())
        } else {
            Err(Failure::Rejected(op, response))
        },
        Err(f) => Err(f),
    }
}

/// What the raw result of an exchange means for a query: the angle reported,
/// or a parse failure with the response, or the failure of the exchange
/// itself.
pub open spec fn answered(exchanged: Result<Seq<char>, Failure>) -> Result<u8, Failure> {
    match exchanged {
        Ok(response) => match reported_angle(response) {
            Some(angle) => Ok(angle),
            None => Err(Failure::Unparsable(response)),
        },
        Err(f) => Err(f),
    }
}

fn begin(line: Result<String, ServoError>) -> (r: Result<Exchange, ServoError>)
    ensures
        start_outcome(r) == match text_outcome(line) {
            Ok(l) => Ok::<ExchangeModel, Failure>(fresh(l)),
            Err(f) => Err(f),
        },
{
    match line {
        Ok(l) => Ok(Exchange::begin(l)),
        Err(e) => Err(e),
    }
}

impl SerialManager {
    /// Starts to open the device on `port_name` at `baud_rate`.
    pub fn new(port_name: &str, baud_rate: u32) -> (o: Opening)
        ensures
            o.port_name@ == port_name@,
            o.baud_rate == baud_rate,
            o.stage == OpenStage::Opening,
    {
        Opening { port_name: String::from_str(port_name), baud_rate, stage: OpenStage::Opening }
    }

    /// Enters serial mode.
    pub fn start_serial_mode(&self) -> (x: Exchange)
        ensures
            x@ == fresh(start_line()),
    {
        Exchange::begin(encode_start())
    }

    /// Leaves serial mode.
    pub fn stop_serial_mode(&self) -> (x: Exchange)
        ensures
            x@ == fresh(stop_line()),
    {
        Exchange::begin(encode_stop())
    }

    /// Sets a servo to an angle in degrees.
    pub fn set_servo_angle(&self, channel: u8, angle: u8) -> (r: Result<Exchange, ServoError>)
        ensures
            start_outcome(r) == started(angle_fault(channel, angle), set_angle_line(channel, angle)),
    {
        begin(encode_set_angle(channel, angle))
    }

    /// Drives a servo with a pulse width in microseconds.
    pub fn set_servo_pwm(&self, channel: u8, pulse_us: u16) -> (r: Result<Exchange, ServoError>)
        ensures
            start_outcome(r) == started(pwm_fault(channel, pulse_us), set_pwm_line(channel, pulse_us)),
    {
        begin(encode_set_pwm(channel, pulse_us))
    }

    /// Applies angles to the channels from zero on, at once.
    pub fn execute_pose(&self, angles: &[u8]) -> (r: Result<Exchange, ServoError>)
        ensures
            start_outcome(r) == started(pose_fault(angles@), pose_line(angles@)),
    {
        begin(encode_pose(angles))
    }

    /// Moves to the angles over `duration_ms` milliseconds.
    pub fn execute_move(&self, duration_ms: u16, angles: &[u8]) -> (r: Result<Exchange, ServoError>)
        ensures
            start_outcome(r) == started(pose_fault(angles@), move_line(duration_ms, angles@)),
    {
        begin(encode_move(duration_ms, angles))
    }

    /// Asks for the angle of a servo.
    pub fn get_servo_angle(&self, channel: u8) -> (r: Result<Exchange, ServoError>)
        ensures
            start_outcome(r) == started(channel_fault(channel), get_line(channel)),
    {
        begin(encode_get(channel))
    }

    /// Asks for the angles of all servos, channel by channel.
    pub fn get_all_servos(&self) -> (s: Survey)
        ensures
            s@ == survey_start(),
    {
        Survey { channel: 0, found: Vec::new(), current: Exchange::begin(get_command(0)) }
    }

    /// Judges the raw result of the exchange of a command.
    pub fn conclude(op: WriteOp, exchanged: Result<String, ServoError>) -> (r: Result<(), ServoError>)
        ensures
            outcome(r) == concluded(op, text_outcome(exchanged)),
    {
        match exchanged {
            Ok(response) => check_ack(op, response.as_str()),
            Err(e) => Err(e),
        }
    }

    /// Judges the raw result of the exchange of a query.
    pub fn answer(exchanged: Result<String, ServoError>) -> (r: Result<u8, ServoError>)
        ensures
            outcome(r) == answered(text_outcome(exchanged)),
    {
        match exchanged {
            Ok(response) => parse_angle_response(response.as_str()),
            Err(e) => Err(e),
        }
    }
}

/// A query of all channels in progress: the channels below `channel` have
/// been asked, `found` holds those that answered, and `current` is the
/// exchange for `channel`.
#[derive(Debug, PartialEq, Eq)]
pub struct Survey {
    pub channel: u8,
    pub found: Vec<(u8, u8)>,
    pub current: Exchange,
}

pub ghost struct SurveyModel {
    pub channel: u8,
    pub found: Seq<(u8, u8)>,
    pub current: ExchangeModel,
}

impl View for Survey {
    type V = SurveyModel;

    open spec fn view(&self) -> SurveyModel {
        SurveyModel { channel: self.channel, found: self.found@, current: self.current@ }
    }
}

/// A survey after an event: still under way, or complete with the channels
/// that answered and their angles.
#[derive(Debug, PartialEq, Eq)]
pub enum SurveyProgress {
    Continue(Survey),
    Complete(Vec<(u8, u8)>),
}

pub ghost enum SurveyProgressModel {
    Continue(SurveyModel),
    Complete(Seq<(u8, u8)>),
}

impl View for SurveyProgress {
    type V = SurveyProgressModel;

    open spec fn view(&self) -> SurveyProgressModel {
        match *self {
            SurveyProgress::Continue(s) => SurveyProgressModel::Continue(s@),
            SurveyProgress::Complete(found) => SurveyProgressModel::Complete(found@),
        }
    }
}

/// A survey that is about to ask channel zero.
pub open spec fn survey_start() -> SurveyModel {
    SurveyModel { channel: 0, found: Seq::empty(), current: fresh(get_line(0)) }
}

/// What the survey holds once the exchange for `channel` has ended with
/// `exchanged`: one entry more if an angle was reported; otherwise the
/// channel is left out.
pub open spec fn recorded(found: Seq<(u8, u8)>, channel: u8, exchanged: Result<Seq<char>, Failure>)
    -> Seq<(u8, u8)> {
    match answered(exchanged) {
        Ok(angle) => found.push((channel, angle)),
        Err(_) => found,
    }
}

/// The survey `s` after `event`. When the exchange for a channel ends, in
/// whatever way, the survey goes on to the next channel; after the last one
/// it is complete.
pub open spec fn surveyed(s: SurveyModel, event: PortEvent) -> SurveyProgressModel {
    match advanced(s.current, event) {
        ProgressModel::Continue(x) => SurveyProgressModel::Continue(
            SurveyModel { current: x, ..s },
        ),
        ProgressModel::Complete(exchanged) => {
            let found = recorded(s.found, s.channel, exchanged);
            if s.channel < NUM_SERVOS - 1 {
                SurveyProgressModel::Continue(
                    SurveyModel {
                        channel: (s.channel + 1) as u8,
                        found,
                        current: fresh(get_line((s.channel + 1) as u8)),
                    },
                )
            } else {
                SurveyProgressModel::Complete(found)
            }
        },
    }
}

impl SurveyModel {
    /// The survey is at one of the channels; its entries are those of
    /// channels before it, in rising order.
    pub open spec fn wf(self) -> bool {
        &&& self.channel < NUM_SERVOS
        &&& self.current.command == get_line(self.channel)
        &&& rising_below(self.found, self.channel as int)
    }
}

/// The entries name channels below `limit`, each one once and in rising
/// order.
pub open spec fn rising_below(found: Seq<(u8, u8)>, limit: int) -> bool {
    &&& forall|i: int| 0 <= i < found.len() ==> (#[trigger] found[i]).0 < limit
    &&& forall|i: int, j: int| 0 <= i < j < found.len() ==> (#[trigger] found[i]).0 < (
    #[trigger] found[j]).0
}

/// A survey starts well formed and stays so while it goes on: it asks each
/// channel for its own angle. What it returns in the end names channels
/// below [`NUM_SERVOS`], each at most once and in rising order.
pub proof fn survey_stays_ordered(s: SurveyModel, event: PortEvent)
    requires
        s.wf(),
    ensures
        survey_start().wf(),
        surveyed(s, event) matches SurveyProgressModel::Continue(next) ==> next.wf(),
        surveyed(s, event) matches SurveyProgressModel::Complete(found) ==> rising_below(
            found,
            NUM_SERVOS as int,
        ),
{
    match advanced(s.current, event) {
        ProgressModel::Continue(x) => {},
        ProgressModel::Complete(exchanged) => {
            let found = recorded(s.found, s.channel, exchanged);
            assert(rising_below(found, s.channel + 1));
        },
    }
}

/// An exchange that reads the line `OK` ends with exactly that text, and
/// every command takes it for its acknowledgement.
pub proof fn ok_line_is_acknowledged(x: ExchangeModel, op: WriteOp)
    requires
        x.phase == Phase::Reading,
        x.received.len() == 0,
    ensures
        advanced_through(x, reads_of(seq![79u8, 75u8, 10u8])) == ProgressModel::Complete(
            Ok(seq!['O', 'K', '\n']),
        ),
        concluded(op, Ok(seq!['O', 'K', '\n'])) == Ok::<(), Failure>(()),
{
    let line = seq![79u8, 75u8, 10u8];
    let text = seq!['O', 'K', '\n'];
    line_is_read_whole(x, line);
    assert(x.received + line =~= line);
    assert(is_ascii_bytes(line));
    assert(ascii_text(line) =~= text);
    padded_ok_is_ack(Seq::empty(), seq!['\n']);
    assert(Seq::<char>::empty() + seq!['O', 'K'] + seq!['\n'] =~= text);
}

/// A request that is refused starts no exchange: nothing is sent.
pub proof fn refused_request_sends_nothing(f: Failure, line: Seq<char>)
    ensures
        started(Some(f), line) == Err::<ExchangeModel, Failure>(f),
{
}

/// A channel whose exchange fails is left out of the survey, and the survey
/// goes on with the next channel, or ends after the last one with what it
/// has found.
pub proof fn failed_channel_is_left_out(s: SurveyModel, event: PortEvent, f: Failure)
    requires
        advanced(s.current, event) == ProgressModel::Complete(Err(f)),
    ensures
        s.channel < NUM_SERVOS - 1 ==> surveyed(s, event) == SurveyProgressModel::Continue(
            SurveyModel {
                channel: (s.channel + 1) as u8,
                found: s.found,
                current: fresh(get_line((s.channel + 1) as u8)),
            },
        ),
        s.channel >= NUM_SERVOS - 1 ==> surveyed(s, event) == SurveyProgressModel::Complete(
            s.found,
        ),
{
}

/// A channel whose response reports an angle adds exactly one entry, after
/// those of the channels before it.
pub proof fn answering_channel_is_recorded(s: SurveyModel, event: PortEvent, response: Seq<char>)
    requires
        advanced(s.current, event) == ProgressModel::Complete(Ok(response)),
        reported_angle(response) is Some,
    ensures
        s.channel >= NUM_SERVOS - 1 ==> surveyed(s, event) == SurveyProgressModel::Complete(
            s.found.push((s.channel, reported_angle(response)->0)),
        ),
        s.channel < NUM_SERVOS - 1 ==> surveyed(s, event) == SurveyProgressModel::Continue(
            SurveyModel {
                channel: (s.channel + 1) as u8,
                found: s.found.push((s.channel, reported_angle(response)->0)),
                current: fresh(get_line((s.channel + 1) as u8)),
            },
        ),
{
}

impl Survey {
    /// The action that is due.
    pub fn action(&self) -> (a: Action)
        ensures
            a == due(self.current.phase),
    {
        self.current.action()
    }

    /// The command to write, as text.
    pub fn command(&self) -> (c: &str)
        ensures
            c@ == self.current.command@,
    {
        self.current.command()
    }

    /// What `event` would give for the channel that is being asked: nothing
    /// while its exchange would go on, and else its angle or the failure for
    /// which it will be left out. The survey itself stays as it is.
    pub fn channel_result(&self, event: PortEvent) -> (r: Option<Result<u8, ServoError>>)
        ensures
            match advanced(self@.current, event) {
                ProgressModel::Continue(_) => r.is_none(),
                ProgressModel::Complete(c) => r matches Some(x) && outcome(x) == answered(c),
            },
    {
        match self.current.conclusion(event) {
            None => None,
            Some(exchanged) => Some(SerialManager::answer(exchanged)),
        }
    }

    /// Takes the outcome of the action that was due.
    pub fn advance(self, event: PortEvent) -> (p: SurveyProgress)
        ensures
            p@ == surveyed(self@, event),
    {
        let Survey { channel, found, current } = self;
        match current.advance(event) {
            Progress::Continue(x) => SurveyProgress::Continue(Survey { channel, found, current: x }),
            Progress::Complete(exchanged) => {
                let mut found = found;
                match SerialManager::answer(exchanged) {
                    Ok(angle) => {
                        found.push((channel, angle));
                    },
                    Err(_) => {},
                }
                if channel < NUM_SERVOS - 1 {
                    SurveyProgress::Continue(
                        Survey {
                            channel: channel + 1,
                            found,
                            current: Exchange::begin(get_command(channel + 1)),
                        },
                    )
                } else {
                    SurveyProgress::Complete(found)
                }
            },
        }
    }
}

} // verus!
