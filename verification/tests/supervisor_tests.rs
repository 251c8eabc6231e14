use robotarm_backend::error::{ClearPoint, ServoError, WriteOp};
use robotarm_backend::exchange::{Action, PortEvent, Progress};
use robotarm_backend::handlers::{
    command_reply, execute_move, execute_pose, get_all_servos, get_servo_position,
    handle_serial_error, health_check, position_reply, positions_reply, set_servo_angle,
    set_servo_pwm, start_serial_mode, stop_serial_mode, AppState, ConnectionSlot, BAD_REQUEST,
    RECONNECT_INTERVAL_MS, SERVICE_UNAVAILABLE,
};
use robotarm_backend::models::{
    ErrorResponse, HealthResponse, MoveRequest, PoseRequest, ServoPosition, ServoPositions,
    SetAngleRequest, SetPwmRequest, SuccessResponse,
};
use robotarm_backend::serial::{OpenStage, Opening, SerialManager};

fn ready() -> AppState {
    let mut state = AppState::new("/dev/ttyUSB0", 115200);
    state.serial = ConnectionSlot::Ready(SerialManager {
        port_name: "/dev/ttyUSB0".to_string(),
        baud_rate: 115200,
    });
    state
}

fn open_with(state: &mut AppState, events: &[PortEvent]) -> Vec<Result<Option<Action>, ServoError>> {
    events.iter().map(|e| state.on_open_event(*e)).collect()
}

#[test]
fn new_state_is_empty() {
    let state = AppState::new("/dev/ttyS1", 9600);
    assert_eq!(state.serial, ConnectionSlot::Empty);
    assert_eq!(state.serial_port_name, "/dev/ttyS1");
    assert_eq!(state.serial_baud_rate, 9600);
    assert!(state.first_tick_pending);
    assert!(!state.is_connected());
    assert_eq!(state.get_serial(), None);
    assert_eq!(state.borrow(), Err(ServoError::NotConnected));
    assert_eq!(RECONNECT_INTERVAL_MS, 5000);
}

#[test]
fn first_tick_is_passed_over() {
    let mut state = AppState::new("/dev/ttyUSB0", 115200);
    assert_eq!(state.on_tick(), None);
    assert_eq!(state.serial, ConnectionSlot::Empty);
    assert_eq!(state.on_tick(), Some(Action::Open { timeout_ms: 12000 }));
    assert_eq!(
        state.serial,
        ConnectionSlot::Opening(Opening {
            port_name: "/dev/ttyUSB0".to_string(),
            baud_rate: 115200,
            stage: OpenStage::Opening,
        })
    );
}

#[test]
fn every_tick_retries_until_the_device_opens() {
    let mut state = AppState::new("/dev/ttyUSB0", 115200);
    assert_eq!(state.on_tick(), None);
    for _ in 0..5 {
        assert_eq!(state.on_tick(), Some(Action::Open { timeout_ms: 12000 }));
        assert_eq!(state.on_open_event(PortEvent::Failed), Err(ServoError::Open));
        assert_eq!(state.serial, ConnectionSlot::Empty);
    }
    assert_eq!(state.on_tick(), Some(Action::Open { timeout_ms: 12000 }));
    let steps = open_with(&mut state, &[PortEvent::Done; 5]);
    assert_eq!(
        steps,
        vec![
            Ok(Some(Action::Settle(100))),
            Ok(Some(Action::ClearInput)),
            Ok(Some(Action::Settle(500))),
            Ok(Some(Action::ClearInput)),
            Ok(None),
        ]
    );
    assert!(state.is_connected());
    assert_eq!(state.on_tick(), None);
    assert_eq!(state.on_tick(), None);
    assert!(state.is_connected());
}

#[test]
fn tick_leaves_an_opening_alone() {
    let mut state = AppState::new("/dev/ttyUSB0", 115200);
    assert_eq!(state.connect(), Some(Action::Open { timeout_ms: 12000 }));
    assert_eq!(state.connect(), None);
    assert_eq!(state.on_tick(), None);
    assert_eq!(state.on_tick(), None);
    assert!(!state.is_connected());
    assert_eq!(state.borrow(), Err(ServoError::NotConnected));
}

#[test]
fn failed_clear_empties_the_slot() {
    let mut state = AppState::new("/dev/ttyUSB0", 115200);
    state.connect();
    let steps = open_with(&mut state, &[PortEvent::Done, PortEvent::Done, PortEvent::Failed]);
    assert_eq!(steps[2], Err(ServoError::ClearInput(ClearPoint::AfterOpening)));
    assert_eq!(state.serial, ConnectionSlot::Empty);
    assert_eq!(state.on_open_event(PortEvent::Done), Ok(None));
    assert_eq!(state.serial, ConnectionSlot::Empty);
}

#[test]
fn write_failure_drops_the_connection() {
    let mut state = ready();
    let x = set_servo_angle(&state, 3, &SetAngleRequest { angle: 90 }).unwrap();
    let x = match x.advance(PortEvent::Done) {
        Progress::Continue(y) => y,
        Progress::Complete(r) => panic!("ended early: {:?}", r),
    };
    let exchanged = match x.advance(PortEvent::Failed) {
        Progress::Complete(r) => r,
        Progress::Continue(_) => panic!("went on"),
    };
    assert_eq!(exchanged, Err(ServoError::Write));
    let reply = command_reply(&mut state, WriteOp::SetAngle, exchanged);
    assert_eq!(
        reply,
        Err((
            503,
            ErrorResponse { error: "Serial device disconnected, reconnecting...".to_string() }
        ))
    );
    assert_eq!(state.serial, ConnectionSlot::Empty);
    assert_eq!(state.borrow(), Err(ServoError::NotConnected));
    assert_eq!(
        set_servo_angle(&state, 3, &SetAngleRequest { angle: 90 }),
        Err(ServoError::NotConnected)
    );
}

#[test]
fn link_faults_empty_the_slot() {
    for e in [
        ServoError::Open,
        ServoError::ClearInput(ClearPoint::AfterOpening),
        ServoError::ClearInput(ClearPoint::SecondFlush),
        ServoError::ClearInput(ClearPoint::BeforeSending),
        ServoError::Write,
        ServoError::Drain,
        ServoError::Read,
    ] {
        let mut state = ready();
        let (status, body) = handle_serial_error(&mut state, &e);
        assert_eq!(status, SERVICE_UNAVAILABLE);
        assert_eq!(body.error, "Serial device disconnected, reconnecting...");
        assert_eq!(state.serial, ConnectionSlot::Empty);
    }
}

#[test]
fn request_failures_keep_the_slot() {
    let errors = [
        ServoError::InvalidChannel(6),
        ServoError::InvalidAngle(181),
        ServoError::InvalidPulse(20001),
        ServoError::TooManyServos(7),
        ServoError::Rejected(WriteOp::Pose, "ERR\n".to_string()),
        ServoError::Unparsable("SERVO 3: oops".to_string()),
    ];
    for e in errors {
        let mut state = ready();
        let (status, body) = handle_serial_error(&mut state, &e);
        assert_eq!(status, BAD_REQUEST);
        assert_eq!(body.error, e.message());
        assert_eq!(state, ready());
    }
}

#[test]
fn missing_connection_is_unavailable() {
    let mut state = AppState::new("/dev/ttyUSB0", 115200);
    let reply = command_reply(&mut state, WriteOp::Start, Err(ServoError::NotConnected));
    assert_eq!(
        reply,
        Err((503, ErrorResponse { error: "Serial device not connected".to_string() }))
    );
    assert_eq!(state, AppState::new("/dev/ttyUSB0", 115200));
}

#[test]
fn health() {
    assert_eq!(
        health_check(&ready()),
        HealthResponse { status: "ok".to_string(), serial: "connected".to_string() }
    );
    let mut state = AppState::new("/dev/ttyUSB0", 115200);
    let degraded =
        HealthResponse { status: "degraded".to_string(), serial: "not_connected".to_string() };
    assert_eq!(health_check(&state), degraded);
    state.connect();
    assert_eq!(health_check(&state), degraded);
}

#[test]
fn requests_without_connection_fail_before_validation() {
    let state = AppState::new("/dev/ttyUSB0", 115200);
    assert_eq!(start_serial_mode(&state), Err(ServoError::NotConnected));
    assert_eq!(stop_serial_mode(&state), Err(ServoError::NotConnected));
    assert_eq!(
        set_servo_angle(&state, 9, &SetAngleRequest { angle: 200 }),
        Err(ServoError::NotConnected)
    );
    assert_eq!(
        set_servo_pwm(&state, 0, &SetPwmRequest { pulse_us: 1500 }),
        Err(ServoError::NotConnected)
    );
    assert_eq!(get_servo_position(&state, 0), Err(ServoError::NotConnected));
    assert_eq!(get_all_servos(&state), Err(ServoError::NotConnected));
    assert_eq!(
        execute_pose(&state, &PoseRequest { angles: vec![1] }),
        Err(ServoError::NotConnected)
    );
    assert_eq!(
        execute_move(&state, &MoveRequest { duration_ms: 1, angles: vec![1] }),
        Err(ServoError::NotConnected)
    );
}

#[test]
fn requests_with_connection_start_their_exchange() {
    let state = ready();
    assert_eq!(start_serial_mode(&state).unwrap().command(), "START\n");
    assert_eq!(stop_serial_mode(&state).unwrap().command(), "STOP\n");
    assert_eq!(
        set_servo_angle(&state, 3, &SetAngleRequest { angle: 90 }).unwrap().command(),
        "S3:90\n"
    );
    assert_eq!(
        set_servo_angle(&state, 6, &SetAngleRequest { angle: 90 }),
        Err(ServoError::InvalidChannel(6))
    );
    assert_eq!(
        set_servo_pwm(&state, 1, &SetPwmRequest { pulse_us: 20000 }).unwrap().command(),
        "P1:20000\n"
    );
    assert_eq!(get_servo_position(&state, 5).unwrap().command(), "GET 5\n");
    assert_eq!(get_all_servos(&state).unwrap().command(), "GET 0\n");
    assert_eq!(
        execute_pose(&state, &PoseRequest { angles: vec![1, 2, 3] }).unwrap().command(),
        "POSE 1,2,3\n"
    );
    assert_eq!(
        execute_pose(&state, &PoseRequest { angles: vec![181] }),
        Err(ServoError::InvalidAngle(181))
    );
    assert_eq!(
        execute_move(&state, &MoveRequest { duration_ms: 250, angles: vec![9] })
            .unwrap()
            .command(),
        "MOVE 250 9\n"
    );
}

#[test]
fn command_replies() {
    let mut state = ready();
    assert_eq!(
        command_reply(&mut state, WriteOp::Start, Ok("OK\n".to_string())),
        Ok(SuccessResponse { status: "serial_mode".to_string() })
    );
    assert_eq!(
        command_reply(&mut state, WriteOp::Stop, Ok("OK\n".to_string())),
        Ok(SuccessResponse { status: "button_mode".to_string() })
    );
    for op in [WriteOp::SetAngle, WriteOp::SetPwm, WriteOp::Pose, WriteOp::Move] {
        assert_eq!(
            command_reply(&mut state, op, Ok("OK\r\n".to_string())),
            Ok(SuccessResponse { status: "ok".to_string() })
        );
    }
    assert_eq!(
        command_reply(&mut state, WriteOp::Move, Ok("BUSY\n".to_string())),
        Err((400, ErrorResponse { error: "Failed to execute MOVE: BUSY\n".to_string() }))
    );
    assert_eq!(state, ready());
    assert_eq!(
        command_reply(&mut state, WriteOp::Move, Err(ServoError::Read)),
        Err((
            503,
            ErrorResponse { error: "Serial device disconnected, reconnecting...".to_string() }
        ))
    );
    assert_eq!(state.serial, ConnectionSlot::Empty);
}

#[test]
fn position_replies() {
    let mut state = ready();
    assert_eq!(
        position_reply(&mut state, 3, Ok("SERVO 3: 90 degrees\n".to_string())),
        Ok(ServoPosition { channel: 3, angle: 90 })
    );
    assert_eq!(
        position_reply(&mut state, 3, Ok("SERVO 3: oops".to_string())),
        Err((
            400,
            ErrorResponse {
                error: "Failed to parse servo angle from response: SERVO 3: oops".to_string()
            }
        ))
    );
    assert_eq!(
        position_reply(&mut state, 7, Err(ServoError::InvalidChannel(7))),
        Err((400, ErrorResponse { error: "Invalid servo channel: 7".to_string() }))
    );
    assert_eq!(state, ready());
    assert_eq!(
        positions_reply(&vec![(0, 10), (3, 40)]),
        ServoPositions {
            servos: vec![
                ServoPosition { channel: 0, angle: 10 },
                ServoPosition { channel: 3, angle: 40 }
            ]
        }
    );
    assert_eq!(positions_reply(&vec![]), ServoPositions { servos: vec![] });
}

#[test]
fn drop_connection_empties_the_slot() {
    let mut state = ready();
    state.drop_connection();
    assert_eq!(state.serial, ConnectionSlot::Empty);
    assert_eq!(state.serial_port_name, "/dev/ttyUSB0");
}

#[test]
fn flush_failure_drops_the_connection() {
    let mut state = ready();
    let mut x = execute_pose(&state, &PoseRequest { angles: vec![90, 90] }).unwrap();
    for _ in 0..2 {
        x = match x.advance(PortEvent::Done) {
            Progress::Continue(y) => y,
            Progress::Complete(r) => panic!("ended early: {:?}", r),
        };
    }
    let exchanged = match x.advance(PortEvent::Failed) {
        Progress::Complete(r) => r,
        Progress::Continue(_) => panic!("went on"),
    };
    assert_eq!(exchanged, Err(ServoError::Drain));
    assert_eq!(
        command_reply(&mut state, WriteOp::Pose, exchanged),
        Err((
            503,
            ErrorResponse { error: "Serial device disconnected, reconnecting...".to_string() }
        ))
    );
    assert_eq!(state.serial, ConnectionSlot::Empty);
    assert_eq!(get_servo_position(&state, 0), Err(ServoError::NotConnected));
    assert_eq!(state.on_tick(), None);
    assert_eq!(state.on_tick(), Some(Action::Open { timeout_ms: 12000 }));
}
