use robotarm_backend::error::{ClearPoint, ServoError, WriteOp};
use robotarm_backend::exchange::{
    Action, Exchange, Phase, PortEvent, Progress, IO_TIMEOUT_MS, MAX_RESPONSE_BYTES,
    SETTLE_AFTER_WRITE_MS,
};
use robotarm_backend::serial::{
    OpenProgress, OpenStage, Opening, SerialManager, Survey, SurveyProgress, QUIET_MS,
    STABILIZE_MS,
};

fn manager() -> SerialManager {
    SerialManager { port_name: "/dev/ttyUSB0".to_string(), baud_rate: 115200 }
}

/// Runs an exchange against a device that answers with `reply` and then
/// falls silent. Returns the actions performed and the result.
fn run(mut x: Exchange, reply: &[u8]) -> (Vec<Action>, Result<String, ServoError>) {
    let mut actions = Vec::new();
    let mut next = 0;
    loop {
        let action = x.action();
        actions.push(action);
        let event = match action {
            Action::Read => {
                if next < reply.len() {
                    next += 1;
                    PortEvent::Byte(reply[next - 1])
                } else {
                    PortEvent::TimedOut
                }
            }
            _ => PortEvent::Done,
        };
        match x.advance(event) {
            Progress::Continue(y) => x = y,
            Progress::Complete(r) => return (actions, r),
        }
    }
}

fn to_reading(command: &str) -> Exchange {
    let mut x = Exchange::begin(command.to_string());
    for _ in 0..4 {
        x = match x.advance(PortEvent::Done) {
            Progress::Continue(y) => y,
            Progress::Complete(r) => panic!("ended early: {:?}", r),
        };
    }
    assert_eq!(x.phase, Phase::Reading);
    x
}

#[test]
fn constants_of_the_exchange() {
    assert_eq!(SETTLE_AFTER_WRITE_MS, 200);
    assert_eq!(MAX_RESPONSE_BYTES, 256);
    assert_eq!(IO_TIMEOUT_MS, 12000);
    assert_eq!(STABILIZE_MS, 100);
    assert_eq!(QUIET_MS, 500);
}

#[test]
fn exchange_runs_its_actions_in_order() {
    let x = manager().set_servo_angle(3, 90).unwrap();
    assert_eq!(x.command(), "S3:90\n");
    let (actions, result) = run(x, b"OK\n");
    assert_eq!(
        actions,
        vec![
            Action::ClearInput,
            Action::Write,
            Action::Drain,
            Action::Settle(200),
            Action::Read,
            Action::Read,
            Action::Read,
        ]
    );
    assert_eq!(result, Ok("OK\n".to_string()));
}

#[test]
fn response_ends_at_the_first_newline() {
    let (_, result) = run(Exchange::begin("GET 0\n".to_string()), b"SERVO 0: 90 degrees\nextra\n");
    assert_eq!(result, Ok("SERVO 0: 90 degrees\n".to_string()));
}

#[test]
fn timeout_ends_the_response() {
    let (actions, result) = run(Exchange::begin("START\n".to_string()), b"OK");
    assert_eq!(result, Ok("OK".to_string()));
    assert_eq!(actions.len(), 7);
    let (_, empty) = run(Exchange::begin("START\n".to_string()), b"");
    assert_eq!(empty, Ok(String::new()));
}

#[test]
fn read_without_a_byte_ends_the_response() {
    let x = to_reading("STOP\n");
    let x = match x.advance(PortEvent::Byte(b'O')) {
        Progress::Continue(y) => y,
        Progress::Complete(r) => panic!("ended early: {:?}", r),
    };
    assert_eq!(x.advance(PortEvent::Done), Progress::Complete(Ok("O".to_string())));
}

#[test]
fn response_is_cut_after_the_cap() {
    let reply = vec![b'a'; 1000];
    let (actions, result) = run(Exchange::begin("START\n".to_string()), &reply);
    assert_eq!(result, Ok("a".repeat(257)));
    assert_eq!(actions.len(), 4 + 257);
}

#[test]
fn bytes_that_are_no_text_are_replaced() {
    let (_, result) = run(Exchange::begin("START\n".to_string()), &[b'O', 0xff, b'K', b'\n']);
    assert_eq!(result, Ok("O\u{fffd}K\n".to_string()));
    let (_, two) = run(Exchange::begin("START\n".to_string()), &[0xc3, 0xa9, b'\n']);
    assert_eq!(two, Ok("\u{e9}\n".to_string()));
}

#[test]
fn each_phase_fails_with_its_own_error() {
    let failures = [
        (0, ServoError::ClearInput(ClearPoint::BeforeSending)),
        (1, ServoError::Write),
        (2, ServoError::Drain),
        (4, ServoError::Read),
    ];
    for (steps, expected) in failures {
        for event in [PortEvent::Failed, PortEvent::TimedOut, PortEvent::Byte(1)] {
            if steps == 4 && event != PortEvent::Failed {
                continue;
            }
            let mut x = Exchange::begin("START\n".to_string());
            for _ in 0..steps {
                x = match x.advance(PortEvent::Done) {
                    Progress::Continue(y) => y,
                    Progress::Complete(r) => panic!("ended early: {:?}", r),
                };
            }
            assert_eq!(x.advance(event), Progress::Complete(Err(expected.clone())));
        }
    }
}

#[test]
fn waiting_cannot_fail() {
    let mut x = Exchange::begin("START\n".to_string());
    for _ in 0..3 {
        x = match x.advance(PortEvent::Done) {
            Progress::Continue(y) => y,
            Progress::Complete(r) => panic!("ended early: {:?}", r),
        };
    }
    assert_eq!(x.phase, Phase::Settling);
    match x.advance(PortEvent::Failed) {
        Progress::Continue(y) => assert_eq!(y.phase, Phase::Reading),
        Progress::Complete(r) => panic!("ended early: {:?}", r),
    }
}

#[test]
fn refused_requests_start_no_exchange() {
    let m = manager();
    for c in 6..=255u8 {
        assert_eq!(m.set_servo_angle(c, 10), Err(ServoError::InvalidChannel(c)));
        assert_eq!(m.set_servo_pwm(c, 10), Err(ServoError::InvalidChannel(c)));
        assert_eq!(m.get_servo_angle(c), Err(ServoError::InvalidChannel(c)));
    }
    assert_eq!(m.set_servo_angle(0, 181), Err(ServoError::InvalidAngle(181)));
    assert_eq!(m.set_servo_pwm(0, 20001), Err(ServoError::InvalidPulse(20001)));
    assert_eq!(m.execute_pose(&[181]), Err(ServoError::InvalidAngle(181)));
    assert_eq!(m.execute_pose(&[1, 2, 181, 4]), Err(ServoError::InvalidAngle(181)));
    assert_eq!(m.execute_move(5, &[0; 7]), Err(ServoError::TooManyServos(7)));
}

#[test]
fn operations_start_with_their_line() {
    let m = manager();
    assert_eq!(m.start_serial_mode().command(), "START\n");
    assert_eq!(m.stop_serial_mode().command(), "STOP\n");
    assert_eq!(m.set_servo_pwm(2, 1500).unwrap().command(), "P2:1500\n");
    assert_eq!(m.execute_pose(&[1, 2]).unwrap().command(), "POSE 1,2\n");
    assert_eq!(m.execute_move(300, &[1, 2]).unwrap().command(), "MOVE 300 1,2\n");
    let x = m.get_servo_angle(4).unwrap();
    assert_eq!(x.command(), "GET 4\n");
    assert_eq!(x.phase, Phase::Clearing);
    assert!(x.received.is_empty());
}

#[test]
fn conclude_and_answer() {
    assert_eq!(SerialManager::conclude(WriteOp::Pose, Ok("OK\n".to_string())), Ok(()));
    assert_eq!(
        SerialManager::conclude(WriteOp::Pose, Ok("NO\n".to_string())),
        Err(ServoError::Rejected(WriteOp::Pose, "NO\n".to_string()))
    );
    assert_eq!(SerialManager::conclude(WriteOp::Pose, Err(ServoError::Read)), Err(ServoError::Read));
    assert_eq!(SerialManager::answer(Ok("SERVO 3: 90 degrees".to_string())), Ok(90));
    assert_eq!(
        SerialManager::answer(Ok("SERVO 3: oops".to_string())),
        Err(ServoError::Unparsable("SERVO 3: oops".to_string()))
    );
    assert_eq!(SerialManager::answer(Err(ServoError::Write)), Err(ServoError::Write));
}

#[test]
fn opening_runs_its_actions_in_order() {
    let mut o = SerialManager::new("/dev/ttyACM0", 9600);
    assert_eq!(o.stage, OpenStage::Opening);
    let mut actions = Vec::new();
    let opened = loop {
        actions.push(o.action());
        match o.advance(PortEvent::Done) {
            OpenProgress::Continue(next) => o = next,
            OpenProgress::Complete(r) => break r,
        }
    };
    assert_eq!(
        actions,
        vec![
            Action::Open { timeout_ms: 12000 },
            Action::Settle(100),
            Action::ClearInput,
            Action::Settle(500),
            Action::ClearInput,
        ]
    );
    assert_eq!(
        opened,
        Ok(SerialManager { port_name: "/dev/ttyACM0".to_string(), baud_rate: 9600 })
    );
}

#[test]
fn opening_fails_by_stage() {
    let at = |stage: OpenStage| Opening { port_name: "p".to_string(), baud_rate: 1, stage };
    assert_eq!(
        at(OpenStage::Opening).advance(PortEvent::Failed),
        OpenProgress::Complete(Err(ServoError::Open))
    );
    assert_eq!(
        at(OpenStage::FirstClear).advance(PortEvent::Failed),
        OpenProgress::Complete(Err(ServoError::ClearInput(ClearPoint::AfterOpening)))
    );
    assert_eq!(
        at(OpenStage::SecondClear).advance(PortEvent::TimedOut),
        OpenProgress::Complete(Err(ServoError::ClearInput(ClearPoint::SecondFlush)))
    );
    assert_eq!(
        at(OpenStage::Stabilizing).advance(PortEvent::Failed),
        OpenProgress::Continue(at(OpenStage::FirstClear))
    );
    assert_eq!(
        at(OpenStage::Quieting).advance(PortEvent::Failed),
        OpenProgress::Continue(at(OpenStage::SecondClear))
    );
}

/// Runs a survey against a device that answers each channel with
/// `replies[channel]`, or fails the read where that is `None`.
fn run_survey(mut s: Survey, replies: &[Option<&str>]) -> (Vec<String>, Vec<(u8, u8)>) {
    let mut written = Vec::new();
    let mut sent = 0;
    loop {
        let event = match s.action() {
            Action::Write => {
                written.push(s.command().to_string());
                sent = 0;
                PortEvent::Done
            }
            Action::Read => match replies[written.len() - 1] {
                None => PortEvent::Failed,
                Some(text) => {
                    if sent < text.len() {
                        sent += 1;
                        PortEvent::Byte(text.as_bytes()[sent - 1])
                    } else {
                        PortEvent::TimedOut
                    }
                }
            },
            _ => PortEvent::Done,
        };
        match s.advance(event) {
            SurveyProgress::Continue(next) => s = next,
            SurveyProgress::Complete(found) => return (written, found),
        }
    }
}

#[test]
fn survey_asks_every_channel() {
    let replies = [
        Some("SERVO 0: 10 degrees\n"),
        Some("SERVO 1: 20 degrees\n"),
        Some("SERVO 2: 30 degrees\n"),
        Some("SERVO 3: 40 degrees\n"),
        Some("SERVO 4: 50 degrees\n"),
        Some("SERVO 5: 60 degrees\n"),
    ];
    let (written, found) = run_survey(manager().get_all_servos(), &replies);
    assert_eq!(written, vec!["GET 0\n", "GET 1\n", "GET 2\n", "GET 3\n", "GET 4\n", "GET 5\n"]);
    assert_eq!(found, vec![(0, 10), (1, 20), (2, 30), (3, 40), (4, 50), (5, 60)]);
}

#[test]
fn survey_leaves_out_the_channel_that_fails() {
    let replies = [
        Some("SERVO 0: 10 degrees\n"),
        Some("SERVO 1: 20 degrees\n"),
        None,
        Some("SERVO 3: 40 degrees\n"),
        Some("SERVO 4: 50 degrees\n"),
        Some("SERVO 5: 60 degrees\n"),
    ];
    let (written, found) = run_survey(manager().get_all_servos(), &replies);
    assert_eq!(written.len(), 6);
    assert_eq!(found, vec![(0, 10), (1, 20), (3, 40), (4, 50), (5, 60)]);
}

#[test]
fn survey_leaves_out_what_it_cannot_parse() {
    let replies = [
        Some("SERVO 0: oops\n"),
        Some(""),
        Some("SERVO 2: 30 degrees\n"),
        Some("ERR\n"),
        Some("SERVO 4: 256 degrees\n"),
        None,
    ];
    let (_, found) = run_survey(manager().get_all_servos(), &replies);
    assert_eq!(found, vec![(2, 30)]);
}

#[test]
fn conclusion_foretells_the_end() {
    let mut x = Exchange::begin("GET 1\n".to_string());
    let reply = b"SERVO 1: 7 degrees\n";
    let mut next = 0;
    let result = loop {
        let event = match x.action() {
            Action::Read => {
                next += 1;
                PortEvent::Byte(reply[next - 1])
            }
            _ => PortEvent::Done,
        };
        let foretold = x.conclusion(event);
        let before = Exchange {
            command: x.command.clone(),
            phase: x.phase,
            received: x.received.clone(),
        };
        assert_eq!(x, before);
        match x.advance(event) {
            Progress::Continue(y) => {
                assert_eq!(foretold, None);
                x = y;
            }
            Progress::Complete(r) => {
                assert_eq!(foretold, Some(r.clone()));
                break r;
            }
        }
    };
    assert_eq!(result, Ok("SERVO 1: 7 degrees\n".to_string()));
}

#[test]
fn conclusion_of_each_failure() {
    let failures = [
        (0, ServoError::ClearInput(ClearPoint::BeforeSending)),
        (1, ServoError::Write),
        (2, ServoError::Drain),
        (4, ServoError::Read),
    ];
    for (steps, expected) in failures {
        let mut x = Exchange::begin("START\n".to_string());
        for _ in 0..steps {
            assert_eq!(x.conclusion(PortEvent::Done), None);
            x = match x.advance(PortEvent::Done) {
                Progress::Continue(y) => y,
                Progress::Complete(r) => panic!("ended early: {:?}", r),
            };
        }
        assert_eq!(x.conclusion(PortEvent::Failed), Some(Err(expected)));
    }
}

#[test]
fn conclusion_at_the_cap_and_on_silence() {
    let mut x = to_reading("START\n");
    assert_eq!(x.conclusion(PortEvent::TimedOut), Some(Ok(String::new())));
    assert_eq!(x.conclusion(PortEvent::Done), Some(Ok(String::new())));
    assert_eq!(x.conclusion(PortEvent::Byte(b'\n')), Some(Ok("\n".to_string())));
    for _ in 0..256 {
        assert_eq!(x.conclusion(PortEvent::Byte(b'a')), None);
        x = match x.advance(PortEvent::Byte(b'a')) {
            Progress::Continue(y) => y,
            Progress::Complete(r) => panic!("ended early: {:?}", r),
        };
    }
    assert_eq!(x.received.len(), 256);
    assert_eq!(x.conclusion(PortEvent::Byte(b'b')), Some(Ok(format!("{}b", "a".repeat(256)))));
    assert_eq!(x.conclusion(PortEvent::TimedOut), Some(Ok("a".repeat(256))));
}

/// Runs a survey as `run_survey` does and collects what `channel_result`
/// says at the end of each channel.
fn survey_results(mut s: Survey, replies: &[Option<&str>]) -> Vec<(u8, Result<u8, ServoError>)> {
    let mut results = Vec::new();
    let mut asked = 0;
    let mut sent = 0;
    loop {
        let event = match s.action() {
            Action::Write => {
                asked += 1;
                sent = 0;
                PortEvent::Done
            }
            Action::Read => match replies[asked - 1] {
                None => PortEvent::Failed,
                Some(text) => {
                    if sent < text.len() {
                        sent += 1;
                        PortEvent::Byte(text.as_bytes()[sent - 1])
                    } else {
                        PortEvent::TimedOut
                    }
                }
            },
            _ => PortEvent::Done,
        };
        if let Some(r) = s.channel_result(event) {
            results.push((s.channel, r));
        }
        match s.advance(event) {
            SurveyProgress::Continue(next) => s = next,
            SurveyProgress::Complete(_) => return results,
        }
    }
}

#[test]
fn survey_hands_out_each_channels_failure() {
    let replies = [
        Some("SERVO 0: 10 degrees\n"),
        Some("SERVO 1: oops\n"),
        None,
        Some(""),
        Some("SERVO 4: 50 degrees\n"),
        Some("ERR\n"),
    ];
    let results = survey_results(manager().get_all_servos(), &replies);
    assert_eq!(
        results,
        vec![
            (0, Ok(10)),
            (1, Err(ServoError::Unparsable("SERVO 1: oops\n".to_string()))),
            (2, Err(ServoError::Read)),
            (3, Err(ServoError::Unparsable(String::new()))),
            (4, Ok(50)),
            (5, Err(ServoError::Unparsable("ERR\n".to_string()))),
        ]
    );
}
