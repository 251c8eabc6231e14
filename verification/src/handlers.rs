//! The connection slot and its supervision, and what the network interface
//! does with a request and with the result of its exchange.

use vstd::prelude::*;
use vstd::string::*;
use crate::codec::{
    angle_fault, channel_fault, get_line, move_line, pose_fault, pose_line, pwm_fault,
    set_angle_line, set_pwm_line, start_line, stop_line,
};
use crate::error::{outcome, text_outcome, ErrorKind, Failure, ServoError, WriteOp};
use crate::exchange::{
    advanced, Action, Exchange, ExchangeModel, Phase, PortEvent, ProgressModel, IO_TIMEOUT_MS,
};
use crate::models::{
    ErrorResponse, HealthResponse, MoveRequest, PoseRequest, ServoPosition, ServoPositions,
    SetAngleRequest, SetPwmRequest, SuccessResponse,
};
use crate::serial::{
    answered, concluded, open_due, opened, start_outcome, started, survey_start, OpenProgress,
    OpenStage, Opening, SerialManager, Survey,
};

verus! {

/// The time between two ticks of the reconnection loop, in milliseconds.
pub const RECONNECT_INTERVAL_MS: u64 = 5000;

/// The status of a reply to a request that the device or the library
/// rejected.
pub const BAD_REQUEST: u16 = 400;

/// The status of a reply to a request that found no usable connection.
pub const SERVICE_UNAVAILABLE: u16 = 503;

/// The one place that holds the connection: empty, being opened, or ready.
#[derive(Debug, PartialEq, Eq)]
pub enum ConnectionSlot {
    Empty,
    Opening(Opening),
    Ready(SerialManager),
}

/// The state that the requests and the reconnection loop share. The driver
/// keeps it behind a lock, which it holds for one call at a time.
#[derive(Debug, PartialEq, Eq)]
pub struct AppState {
    pub serial: ConnectionSlot,
    pub serial_port_name: String,
    pub serial_baud_rate: u32,
    /// Whether the reconnection loop has yet to see its first tick, which
    /// comes at once and is passed over.
    pub first_tick_pending: bool,
}

/// The slot with a new opening for the configured device in it.
pub open spec fn opening_slot(state: AppState) -> ConnectionSlot {
    ConnectionSlot::Opening(
        Opening {
            port_name: state.serial_port_name,
            baud_rate: state.serial_baud_rate,
            stage: OpenStage::Opening,
        },
    )
}

/// The state after an attempt to connect was asked for, and the action to
/// perform: an empty slot starts to open, any other stays as it is.
pub open spec fn connected(state: AppState) -> (AppState, Option<Action>) {
    if state.serial is Empty {
        (
            AppState { serial: opening_slot(state), ..state },
            Some(Action::Open { timeout_ms: IO_TIMEOUT_MS }),
        )
    } else {
        (state, None)
    }
}

/// The state after a tick of the reconnection loop, and the action to
/// perform. The first tick is passed over; every later one starts to open a
/// connection if the slot is empty.
pub open spec fn ticked(state: AppState) -> (AppState, Option<Action>) {
    if state.first_tick_pending {
        (AppState { first_tick_pending: false, ..state }, None)
    } else {
        connected(state)
    }
}

/// The slot after an event of the opening that it holds: the opening goes
/// on, or the connection is ready, or the slot is empty again. A slot that
/// holds no opening stays as it is.
pub open spec fn slot_after(slot: ConnectionSlot, event: PortEvent) -> ConnectionSlot {
    match slot {
        ConnectionSlot::Opening(o) => match opened(o.stage, event) {
            Ok(Some(stage)) => ConnectionSlot::Opening(Opening { stage, ..o }),
            Ok(None) => ConnectionSlot::Ready(
                SerialManager { port_name: o.port_name, baud_rate: o.baud_rate },
            ),
            Err(_) => ConnectionSlot::Empty,
        },
        _ => slot,
    }
}

/// What the driver has to do after an event of the opening: the next
/// action, nothing, or take note of the failure.
pub open spec fn open_step(slot: ConnectionSlot, event: PortEvent) -> Result<Option<Action>, Failure> {
    match slot {
        ConnectionSlot::Opening(o) => match opened(o.stage, event) {
            Ok(Some(stage)) => Ok(Some(open_due(stage))),
            Ok(None) => Ok(None),
            Err(f) => Err(f),
        },
        _ => Ok(None),
    }
}

/// The state after a failure was handled: a link fault empties the slot, any
/// other failure leaves it untouched.
pub open spec fn after_fault(state: AppState, f: Failure) -> AppState {
    if f.is_link_fault() {
        AppState { serial: ConnectionSlot::Empty, ..state }
    } else {
        state
    }
}

/// The status of the reply to a failed request: unavailable where there is
/// no connection or it was just dropped, a bad request otherwise.
pub open spec fn fault_status(f: Failure) -> u16 {
    if f.is_link_fault() || f == Failure::NotConnected {
        SERVICE_UNAVAILABLE
    } else {
        BAD_REQUEST
    }
}

/// The text of the reply to a failed request.
pub open spec fn fault_text(f: Failure) -> Seq<char> {
    if f.is_link_fault() {
        "Serial device disconnected, reconnecting..."@
    } else {
        f.message()
    }
}

/// The status text of the reply to a command that succeeded.
pub open spec fn success_status(op: WriteOp) -> Seq<char> {
    match op {
        WriteOp::Start => "serial_mode"@,
        WriteOp::Stop => "button_mode"@,
        _ => "ok"@,
    }
}

/// The exchange that a request starts on the connection in the slot:
/// without a ready connection the request fails before it is looked at.
pub open spec fn dispatched(slot: ConnectionSlot, fault: Option<Failure>, line: Seq<char>)
    -> Result<ExchangeModel, Failure> {
    if slot is Ready {
        started(fault, line)
    } else {
        Err(Failure::NotConnected)
    }
}

/// The positions that a survey's entries stand for.
pub open spec fn positions(found: Seq<(u8, u8)>) -> Seq<ServoPosition> {
    Seq::new(found.len(), |i: int| ServoPosition { channel: found[i].0, angle: found[i].1 })
}

/// When a command cannot be written, the exchange fails with a link fault;
/// handling it empties the slot, and the next request finds no connection.
pub proof fn write_failure_empties_slot(
    state: AppState,
    x: ExchangeModel,
    event: PortEvent,
    fault: Option<Failure>,
    line: Seq<char>,
)
    requires
        x.phase == Phase::Writing,
        event != PortEvent::Done,
    ensures
        advanced(x, event) == ProgressModel::Complete(
            Err(Failure::Write),
        ),
        Failure::Write.is_link_fault(),
        after_fault(state, Failure::Write).serial is Empty,
        dispatched(after_fault(state, Failure::Write).serial, fault, line) == Err::<
            ExchangeModel,
            Failure,
        >(Failure::NotConnected),
{
}

/// When a written command cannot be pushed out to the device, the exchange
/// fails with a link fault just as when it cannot be written; handling it
/// empties the slot, and the next request finds no connection.
pub proof fn flush_failure_empties_slot(
    state: AppState,
    x: ExchangeModel,
    event: PortEvent,
    fault: Option<Failure>,
    line: Seq<char>,
)
    requires
        x.phase == Phase::Draining,
        event != PortEvent::Done,
    ensures
        advanced(x, event) == ProgressModel::Complete(Err(Failure::Drain)),
        Failure::Drain.is_link_fault(),
        fault_status(Failure::Drain) == SERVICE_UNAVAILABLE,
        after_fault(state, Failure::Drain).serial is Empty,
        dispatched(after_fault(state, Failure::Drain).serial, fault, line) == Err::<
            ExchangeModel,
            Failure,
        >(Failure::NotConnected),
{
}

/// Every failure of a port action is a link fault: whatever action an
/// exchange or an opening fails at, handling the failure empties the slot.
/// Failures of any other kind are those of the request itself.
pub proof fn port_failures_are_link_faults(f: Failure)
    ensures
        f.is_link_fault() <==> (f == Failure::Open || f is ClearInput || f
            == Failure::Write || f == Failure::Drain || f == Failure::Read),
        !f.is_link_fault() <==> (f.kind() == ErrorKind::Validation || f.kind()
            == ErrorKind::Protocol || f.kind() == ErrorKind::Parse || f.kind()
            == ErrorKind::NotConnected),
{
}

/// A failure that is no link fault leaves the slot as it is.
pub proof fn request_failure_keeps_slot(state: AppState, f: Failure)
    requires
        f.kind() == ErrorKind::Validation || f.kind()
            == ErrorKind::Protocol || f.kind() == ErrorKind::Parse,
    ensures
        after_fault(state, f) == state,
        fault_status(f) == BAD_REQUEST,
{
}

/// The reconnection loop passes over its first tick. On every later tick
/// that finds the slot empty it starts to open the device; when that opening
/// fails at any stage the slot is empty again, so that the next tick starts
/// anew.
pub proof fn empty_slot_is_retried_each_tick(state: AppState, stage: OpenStage, event: PortEvent)
    ensures
        state.first_tick_pending ==> ticked(state).1.is_none() && ticked(state).0.serial
            == state.serial && !ticked(state).0.first_tick_pending,
        !state.first_tick_pending && state.serial is Empty ==> ticked(state).1 == Some(
            Action::Open { timeout_ms: IO_TIMEOUT_MS },
        ) && ticked(state).0.serial == opening_slot(state) && !ticked(state).0.first_tick_pending,
        !state.first_tick_pending && !(state.serial is Empty) ==> ticked(state) == (state, None::<Action>),
        opened(stage, event) is Err ==> slot_after(
            ConnectionSlot::Opening(
                Opening {
                    port_name: state.serial_port_name,
                    baud_rate: state.serial_baud_rate,
                    stage,
                },
            ),
            event,
        ) is Empty,
{
}

impl AppState {
    /// A state for the device on `port_name`, with nothing connected.
    pub fn new(port_name: &str, baud_rate: u32) -> (state: AppState)
        ensures
            state.serial is Empty,
            state.serial_port_name@ == port_name@,
            state.serial_baud_rate == baud_rate,
            state.first_tick_pending,
    {
        AppState {
            serial: ConnectionSlot::Empty,
            serial_port_name: String::from_str(port_name),
            serial_baud_rate: baud_rate,
            first_tick_pending: true,
        }
    }

    /// Whether a connection is ready.
    pub fn is_connected(&self) -> (b: bool)
        ensures
            b == (self.serial is Ready),
    {
        match &self.serial {
            ConnectionSlot::Ready(_) => true,
            _ => false,
        }
    }

    /// The connection, if one is ready. Never waits for one to appear.
    pub fn get_serial(&self) -> (r: Option<&SerialManager>)
        ensures
            match self.serial {
                ConnectionSlot::Ready(m) => r == Some(&m),
                _ => r.is_none(),
            },
    {
        match &self.serial {
            ConnectionSlot::Ready(m) => Some(m),
            _ => None,
        }
    }

    /// The connection, or the failure that says there is none.
    pub fn borrow(&self) -> (r: Result<&SerialManager, ServoError>)
        ensures
            match self.serial {
                ConnectionSlot::Ready(m) => r == Ok::<&SerialManager, ServoError>(&m),
                _ => r matches Err(e) && e@ == Failure::NotConnected,
            },
    {
        match &self.serial {
            ConnectionSlot::Ready(m) => Ok(m),
            _ => Err(ServoError::NotConnected),
        }
    }

    /// Empties the slot.
    pub fn drop_connection(&mut self)
        ensures
            *final(self) == (AppState { serial: ConnectionSlot::Empty, ..*old(self) }),
    {
        self.serial = ConnectionSlot::Empty;
    }

    /// Starts to open a connection if the slot is empty, and says what to do.
    pub fn connect(&mut self) -> (a: Option<Action>)
        ensures
            (*final(self), a) == connected(*old(self)),
    {
        match &self.serial {
            ConnectionSlot::Empty => {
                let opening = Opening {
                    port_name: self.serial_port_name.clone(),
                    baud_rate: self.serial_baud_rate,
                    stage: OpenStage::Opening,
                };
                let a = opening.action();
                self.serial = ConnectionSlot::Opening(opening);
                Some(a)
            },
            _ => None,
        }
    }

    /// Takes a tick of the reconnection loop, and says what to do.
    pub fn on_tick(&mut self) -> (a: Option<Action>)
        ensures
            (*final(self), a) == ticked(*old(self)),
    {
        if self.first_tick_pending {
            self.first_tick_pending = false;
            None
        } else {
            self.connect()
        }
    }

    /// Takes the outcome of the action of the opening in the slot, and says
    /// what to do next.
    pub fn on_open_event(&mut self, event: PortEvent) -> (r: Result<Option<Action>, ServoError>)
        ensures
            *final(self) == (AppState {
                serial: slot_after(old(self).serial, event),
                ..*old(self)
            }),
            outcome(r) == open_step(old(self).serial, event),
    {
        let mut slot = ConnectionSlot::Empty;
        core::mem::swap(&mut self.serial, &mut slot);
        match slot {
            ConnectionSlot::Opening(o) => match o.advance(event) {
                OpenProgress::Continue(next) => {
                    let a = next.action();
                    self.serial = ConnectionSlot::Opening(next);
                    Ok(Some(a))
                },
                OpenProgress::Complete(Ok(manager)) => {
                    self.serial = ConnectionSlot::Ready(manager);
                    Ok(None)
                },
                OpenProgress::Complete(Err(e)) => Err(e),
            },
            other => {
                self.serial = other;
                Ok(None)
            },
        }
    }
}

/// Handles the failure of a request: a link fault empties the slot, so that
/// the reconnection loop opens the device again.
pub fn handle_serial_error(state: &mut AppState, error: &ServoError) -> (r: (u16, ErrorResponse))
    ensures
        *final(state) == after_fault(*old(state), error@),
        r.0 == fault_status(error@),
        r.1.error@ == fault_text(error@),
{
    if error.is_link_fault() {
        state.drop_connection();
        (
            SERVICE_UNAVAILABLE,
            ErrorResponse { error: String::from_str("Serial device disconnected, reconnecting...") },
        )
    } else {
        let status = match error {
            ServoError::NotConnected => SERVICE_UNAVAILABLE,
            _ => BAD_REQUEST,
        };
        (status, ErrorResponse { error: error.message() })
    }
}

/// Reports whether a connection is ready.
pub fn health_check(state: &AppState) -> (r: HealthResponse)
    ensures
        state.serial is Ready ==> r.status@ == "ok"@ && r.serial@ == "connected"@,
        !(state.serial is Ready) ==> r.status@ == "degraded"@ && r.serial@ == "not_connected"@,
{
    if state.is_connected() {
        HealthResponse { status: String::from_str("ok"), serial: String::from_str("connected") }
    } else {
        HealthResponse {
            status: String::from_str("degraded"),
            serial: String::from_str("not_connected"),
        }
    }
}

/// Starts the exchange that enters serial mode.
pub fn start_serial_mode(state: &AppState) -> (r: Result<Exchange, ServoError>)
    ensures
        start_outcome(r) == dispatched(state.serial, None, start_line()),
{
    match state.borrow() {
        Ok(serial) => Ok(serial.start_serial_mode()),
        Err(e) => Err(e),
    }
}

/// Starts the exchange that leaves serial mode.
pub fn stop_serial_mode(state: &AppState) -> (r: Result<Exchange, ServoError>)
    ensures
        start_outcome(r) == dispatched(state.serial, None, stop_line()),
{
    match state.borrow() {
        Ok(serial) => Ok(serial.stop_serial_mode()),
        Err(e) => Err(e),
    }
}

/// Starts the exchange that sets servo `id` to the requested angle.
pub fn set_servo_angle(state: &AppState, id: u8, req: &SetAngleRequest) -> (r: Result<
    Exchange,
    ServoError,
>)
    ensures
        start_outcome(r) == dispatched(
            state.serial,
            angle_fault(id, req.angle),
            set_angle_line(id, req.angle),
        ),
{
    match state.borrow() {
        Ok(serial) => serial.set_servo_angle(id, req.angle),
        Err(e) => Err(e),
    }
}

/// Starts the exchange that drives servo `id` with the requested pulse.
pub fn set_servo_pwm(state: &AppState, id: u8, req: &SetPwmRequest) -> (r: Result<
    Exchange,
    ServoError,
>)
    ensures
        start_outcome(r) == dispatched(
            state.serial,
            pwm_fault(id, req.pulse_us),
            set_pwm_line(id, req.pulse_us),
        ),
{
    match state.borrow() {
        Ok(serial) => serial.set_servo_pwm(id, req.pulse_us),
        Err(e) => Err(e),
    }
}

/// Starts the exchange that asks for the position of servo `id`.
pub fn get_servo_position(state: &AppState, id: u8) -> (r: Result<Exchange, ServoError>)
    ensures
        start_outcome(r) == dispatched(state.serial, channel_fault(id), get_line(id)),
{
    match state.borrow() {
        Ok(serial) => serial.get_servo_angle(id),
        Err(e) => Err(e),
    }
}

/// Starts the query of all servos.
pub fn get_all_servos(state: &AppState) -> (r: Result<Survey, ServoError>)
    ensures
        match r {
            Ok(s) => state.serial is Ready && s@ == survey_start(),
            Err(e) => !(state.serial is Ready) && e@ == Failure::NotConnected,
        },
{
    match state.borrow() {
        Ok(serial) => Ok(serial.get_all_servos()),
        Err(e) => Err(e),
    }
}

/// Starts the exchange that applies the requested pose.
pub fn execute_pose(state: &AppState, req: &PoseRequest) -> (r: Result<Exchange, ServoError>)
    ensures
        start_outcome(r) == dispatched(
            state.serial,
            pose_fault(req.angles@),
            pose_line(req.angles@),
        ),
{
    match state.borrow() {
        Ok(serial) => serial.execute_pose(req.angles.as_slice()),
        Err(e) => Err(e),
    }
}

/// Starts the exchange that moves to the requested pose.
pub fn execute_move(state: &AppState, req: &MoveRequest) -> (r: Result<Exchange, ServoError>)
    ensures
        start_outcome(r) == dispatched(
            state.serial,
            pose_fault(req.angles@),
            move_line(req.duration_ms, req.angles@),
        ),
{
    match state.borrow() {
        Ok(serial) => serial.execute_move(req.duration_ms, req.angles.as_slice()),
        Err(e) => Err(e),
    }
}

fn success_text(op: WriteOp) -> (s: &'static str)
    ensures
        s@ == success_status(op),
{
    match op {
        WriteOp::Start => "serial_mode",
        WriteOp::Stop => "button_mode",
        _ => "ok",
    }
}

/// The reply to a command, from what its exchange came to: the request's
/// own failure, or what the exchange returned.
pub fn command_reply(state: &mut AppState, op: WriteOp, exchanged: Result<String, ServoError>) -> (r:
    Result<SuccessResponse, (u16, ErrorResponse)>)
    ensures
        match concluded(op, text_outcome(exchanged)) {
            Ok(_) => {
                &&& *final(state) == *old(state)
                &&& r matches Ok(body) && body.status@ == success_status(op)
            },
            Err(f) => {
                &&& *final(state) == after_fault(*old(state), f)
                &&& r matches Err(reply) && reply.0 == fault_status(f) && reply.1.error@
                    == fault_text(f)
            },
        },
{
    match SerialManager::conclude(op, exchanged) {
        Ok(_) => Ok(SuccessResponse { status: String::from_str(success_text(op)) }),
        Err(e) => Err(handle_serial_error(state, &e)),
    }
}

/// The reply to the query of servo `id`, from what its exchange came to.
pub fn position_reply(state: &mut AppState, id: u8, exchanged: Result<String, ServoError>) -> (r:
    Result<ServoPosition, (u16, ErrorResponse)>)
    ensures
        match answered(text_outcome(exchanged)) {
            Ok(angle) => *final(state) == *old(state) && r == Ok::<
                ServoPosition,
                (u16, ErrorResponse),
            >(ServoPosition { channel: id, angle }),
            Err(f) => {
                &&& *final(state) == after_fault(*old(state), f)
                &&& r matches Err(reply) && reply.0 == fault_status(f) && reply.1.error@
                    == fault_text(f)
            },
        },
{
    match SerialManager::answer(exchanged) {
        Ok(angle) => Ok(ServoPosition { channel: id, angle }),
        Err(e) => Err(handle_serial_error(state, &e)),
    }
}

/// The reply to the query of all servos: one position for each entry, in
/// order.
pub fn positions_reply(found: &Vec<(u8, u8)>) -> (r: ServoPositions)
    ensures
        r.servos@ == positions(found@),
{
    let mut servos: Vec<ServoPosition> = Vec::new();
    let mut i: usize = 0;
    while i < found.len()
        invariant
            i <= found@.len(),
            servos@ == positions(found@.take(i as int)),
        decreases found@.len() - i,
    {
        let entry = found[i];
        servos.push(ServoPosition { channel: entry.0, angle: entry.1 });
        proof {
            assert(servos@ =~= positions(found@.take(i + 1)));
        }
        i += 1;
    }
    proof {
        assert(found@.take(found@.len() as int) =~= found@);
    }
    ServoPositions { servos }
}

} // verus!
