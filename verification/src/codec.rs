//! Validation of requests and their wire form: one newline-terminated ASCII
//! line per command.

use vstd::prelude::*;
use vstd::string::*;
use crate::error::{text_outcome, ErrorKind, Failure, ServoError};
use crate::text::{decimal, push_char, push_decimal};

verus! {

/// The number of servo channels; channels are numbered from zero.
pub const NUM_SERVOS: u8 = 6;

/// The largest angle, in degrees.
pub const MAX_ANGLE: u8 = 180;

/// The largest pulse width, in microseconds.
pub const MAX_PULSE_US: u16 = 20000;

/// The hexadecimal digit of a channel: `0` to `9`, then `A` to `F`.
pub open spec fn hex_char(channel: u8) -> char {
    if channel < 10 {
        ((48 + channel) as u8) as char
    } else {
        ((55 + channel) as u8) as char
    }
}

/// Why a request that names `channel` is refused, if it is.
pub open spec fn channel_fault(channel: u8) -> Option<Failure> {
    if channel >= NUM_SERVOS {
        Some(Failure::InvalidChannel(channel))
    } else {
        None
    }
}

/// Why a request to set `channel` to `angle` is refused, if it is. The
/// channel is judged first.
pub open spec fn angle_fault(channel: u8, angle: u8) -> Option<Failure> {
    if channel >= NUM_SERVOS {
        Some(Failure::InvalidChannel(channel))
    } else if angle > MAX_ANGLE {
        Some(Failure::InvalidAngle(angle))
    } else {
        None
    }
}

/// Why a request to drive `channel` with `pulse_us` is refused, if it is.
pub open spec fn pwm_fault(channel: u8, pulse_us: u16) -> Option<Failure> {
    if channel >= NUM_SERVOS {
        Some(Failure::InvalidChannel(channel))
    } else if pulse_us > MAX_PULSE_US {
        Some(Failure::InvalidPulse(pulse_us))
    } else {
        None
    }
}

/// The first angle of the list that exceeds [`MAX_ANGLE`].
pub open spec fn first_bad_angle(angles: Seq<u8>) -> Option<u8>
    decreases angles.len(),
{
    if angles.len() == 0 {
        None
    } else if angles[0] > MAX_ANGLE {
        Some(angles[0])
    } else {
        first_bad_angle(angles.drop_first())
    }
}

/// Why a pose is refused, if it is: it is too long, or else one of its
/// angles is out of range.
pub open spec fn pose_fault(angles: Seq<u8>) -> Option<Failure> {
    if angles.len() > NUM_SERVOS {
        Some(Failure::TooManyServos(angles.len() as usize))
    } else {
        match first_bad_angle(angles) {
            Some(a) => Some(Failure::InvalidAngle(a)),
            None => None,
        }
    }
}

/// The angles as decimal numerals with commas between them.
pub open spec fn angle_list(angles: Seq<u8>) -> Seq<char>
    decreases angles.len(),
{
    if angles.len() == 0 {
        Seq::empty()
    } else if angles.len() == 1 {
        decimal(angles[0] as nat)
    } else {
        angle_list(angles.drop_last()) + seq![','] + decimal(angles.last() as nat)
    }
}

pub open spec fn start_line() -> Seq<char> {
    seq!['S', 'T', 'A', 'R', 'T', '\n']
}

pub open spec fn stop_line() -> Seq<char> {
    seq!['S', 'T', 'O', 'P', '\n']
}

pub open spec fn set_angle_line(channel: u8, angle: u8) -> Seq<char> {
    seq!['S', hex_char(channel), ':'] + decimal(angle as nat) + seq!['\n']
}

pub open spec fn set_pwm_line(channel: u8, pulse_us: u16) -> Seq<char> {
    seq!['P', hex_char(channel), ':'] + decimal(pulse_us as nat) + seq!['\n']
}

pub open spec fn pose_line(angles: Seq<u8>) -> Seq<char> {
    seq!['P', 'O', 'S', 'E', ' '] + angle_list(angles) + seq!['\n']
}

pub open spec fn move_line(duration_ms: u16, angles: Seq<u8>) -> Seq<char> {
    seq!['M', 'O', 'V', 'E', ' '] + decimal(duration_ms as nat) + seq![' '] + angle_list(angles)
        + seq!['\n']
}

pub open spec fn get_line(channel: u8) -> Seq<char> {
    seq!['G', 'E', 'T', ' ', hex_char(channel), '\n']
}

/// The outcome of encoding: the line, unless the request is refused.
pub open spec fn encoded(fault: Option<Failure>, line: Seq<char>) -> Result<Seq<char>, Failure> {
    match fault {
        Some(f) => Err(f),
        None => Ok(line),
    }
}

/// A list that holds an angle beyond [`MAX_ANGLE`] has a first such angle.
pub proof fn lemma_first_bad_angle(angles: Seq<u8>, i: int)
    requires
        0 <= i < angles.len(),
        angles[i] > MAX_ANGLE,
    ensures
        first_bad_angle(angles) is Some,
        first_bad_angle(angles)->0 > MAX_ANGLE,
    decreases angles.len(),
{
    if angles[0] <= MAX_ANGLE {
        lemma_first_bad_angle(angles.drop_first(), i - 1);
    }
}

/// A request that names a channel beyond the last one is refused as
/// invalid, whatever else it asks for.
pub proof fn invalid_channel_is_refused(channel: u8, angle: u8, pulse_us: u16)
    requires
        channel >= NUM_SERVOS,
    ensures
        angle_fault(channel, angle) == Some(Failure::InvalidChannel(channel)),
        pwm_fault(channel, pulse_us) == Some(Failure::InvalidChannel(channel)),
        channel_fault(channel) == Some(Failure::InvalidChannel(channel)),
        Failure::InvalidChannel(channel).kind() == ErrorKind::Validation,
        !Failure::InvalidChannel(channel).is_link_fault(),
{
}

/// An angle beyond [`MAX_ANGLE`] and a pulse beyond [`MAX_PULSE_US`] are
/// refused as invalid on every channel.
pub proof fn out_of_range_value_is_refused(channel: u8, angle: u8, pulse_us: u16)
    ensures
        angle > MAX_ANGLE ==> angle_fault(channel, angle) is Some && angle_fault(
            channel,
            angle,
        )->0.kind() == ErrorKind::Validation,
        pulse_us > MAX_PULSE_US ==> pwm_fault(channel, pulse_us) is Some && pwm_fault(
            channel,
            pulse_us,
        )->0.kind() == ErrorKind::Validation,
{
}

/// A pose that holds one angle beyond [`MAX_ANGLE`] is refused as invalid,
/// whatever its other angles are.
pub proof fn pose_with_bad_angle_is_refused(angles: Seq<u8>, i: int)
    requires
        0 <= i < angles.len(),
        angles[i] > MAX_ANGLE,
    ensures
        pose_fault(angles) is Some,
        pose_fault(angles)->0.kind() == ErrorKind::Validation,
        forall|line: Seq<char>| (#[trigger] encoded(pose_fault(angles), line)) is Err,
{
    lemma_first_bad_angle(angles, i);
}

/// The hexadecimal digit of a channel.
pub fn channel_to_hex(channel: u8) -> (c: char)
    requires
        channel < 16,
    ensures
        c == hex_char(channel),
{
    if channel < 10 {
        (48u8 + channel) as char
    } else {
        (55u8 + channel) as char
    }
}

/// Judges a pose: its length, then its angles in order.
pub fn check_pose(angles: &[u8]) -> (r: Result<(), ServoError>)
    ensures
        match r {
            Ok(_) => pose_fault(angles@).is_none(),
            Err(e) => pose_fault(angles@) == Some(e@),
        },
{
    if angles.len() > NUM_SERVOS as usize {
        return Err(ServoError::TooManyServos(angles.len()));
    }
    let mut i: usize = 0;
    proof {
        assert(angles@.skip(0) =~= angles@);
    }
    while i < angles.len()
        invariant
            i <= angles@.len(),
            angles@.len() <= NUM_SERVOS,
            first_bad_angle(angles@) == first_bad_angle(angles@.skip(i as int)),
        decreases angles@.len() - i,
    {
        proof {
            assert(angles@.skip(i as int).drop_first() =~= angles@.skip(i + 1));
            assert(angles@.skip(i as int)[0] == angles@[i as int]);
        }
        if angles[i] > MAX_ANGLE {
            return Err(ServoError::InvalidAngle(angles[i]));
        }
        i += 1;
    }
    Ok(())
}

/// Appends the angles, separated by commas.
fn push_angle_list(out: &mut String, angles: &[u8])
    ensures
        final(out)@ == old(out)@ + angle_list(angles@),
{
    let ghost before = out@;
    let mut i: usize = 0;
    while i < angles.len()
        invariant
            i <= angles@.len(),
            out@ == before + angle_list(angles@.take(i as int)),
        decreases angles@.len() - i,
    {
        let ghost head = angles@.take(i as int);
        let ghost more = angles@.take(i + 1);
        if i > 0 {
            push_char(out, ',');
        }
        push_decimal(out, angles[i] as u64);
        proof {
            assert(more.drop_last() =~= head);
            assert(more.last() == angles@[i as int]);
            assert(out@ =~= before + angle_list(more));
        }
        i += 1;
    }
    proof {
        assert(angles@.take(angles@.len() as int) =~= angles@);
    }
}

/// The line that enters serial mode.
pub fn encode_start() -> (line: String)
    ensures
        line@ == start_line(),
{
    proof {
        reveal_strlit("START\n");
        assert("START\n"@ =~= start_line());
    }
    String::from_str("START\n")
}

/// The line that leaves serial mode.
pub fn encode_stop() -> (line: String)
    ensures
        line@ == stop_line(),
{
    proof {
        reveal_strlit("STOP\n");
        assert("STOP\n"@ =~= stop_line());
    }
    String::from_str("STOP\n")
}

/// The line that sets `channel` to `angle` degrees.
pub fn encode_set_angle(channel: u8, angle: u8) -> (r: Result<String, ServoError>)
    ensures
        text_outcome(r) == encoded(angle_fault(channel, angle), set_angle_line(channel, angle)),
{
    if channel >= NUM_SERVOS {
        return Err(ServoError::InvalidChannel(channel));
    }
    if angle > MAX_ANGLE {
        return Err(ServoError::InvalidAngle(angle));
    }
    let mut line = String::new();
    push_char(&mut line, 'S');
    push_char(&mut line, channel_to_hex(channel));
    push_char(&mut line, ':');
    push_decimal(&mut line, angle as u64);
    push_char(&mut line, '\n');
    proof {
        assert(line@ =~= set_angle_line(channel, angle));
    }
    Ok(line)
}

/// The line that drives `channel` with a pulse of `pulse_us` microseconds.
pub fn encode_set_pwm(channel: u8, pulse_us: u16) -> (r: Result<String, ServoError>)
    ensures
        text_outcome(r) == encoded(pwm_fault(channel, pulse_us), set_pwm_line(channel, pulse_us)),
{
    if channel >= NUM_SERVOS {
        return Err(ServoError::InvalidChannel(channel));
    }
    if pulse_us > MAX_PULSE_US {
        return Err(ServoError::InvalidPulse(pulse_us));
    }
    let mut line = String::new();
    push_char(&mut line, 'P');
    push_char(&mut line, channel_to_hex(channel));
    push_char(&mut line, ':');
    push_decimal(&mut line, pulse_us as u64);
    push_char(&mut line, '\n');
    proof {
        assert(line@ =~= set_pwm_line(channel, pulse_us));
    }
    Ok(line)
}

/// The line that applies `angles` to the channels from zero on, at once.
pub fn encode_pose(angles: &[u8]) -> (r: Result<String, ServoError>)
    ensures
        text_outcome(r) == encoded(pose_fault(angles@), pose_line(angles@)),
{
    match check_pose(angles) {
        Err(e) => Err(e),
        Ok(_) => {
            let mut line = String::from_str("POSE ");
            proof {
                reveal_strlit("POSE ");
                assert(line@ =~= seq!['P', 'O', 'S', 'E', ' ']);
            }
            push_angle_list(&mut line, angles);
            push_char(&mut line, '\n');
            proof {
                assert(line@ =~= pose_line(angles@));
            }
            Ok(line)
        },
    }
}

/// The line that moves to `angles` over `duration_ms` milliseconds.
pub fn encode_move(duration_ms: u16, angles: &[u8]) -> (r: Result<String, ServoError>)
    ensures
        text_outcome(r) == encoded(pose_fault(angles@), move_line(duration_ms, angles@)),
{
    match check_pose(angles) {
        Err(e) => Err(e),
        Ok(_) => {
            let mut line = String::from_str("MOVE ");
            proof {
                reveal_strlit("MOVE ");
                assert(line@ =~= seq!['M', 'O', 'V', 'E', ' ']);
            }
            push_decimal(&mut line, duration_ms as u64);
            push_char(&mut line, ' ');
            push_angle_list(&mut line, angles);
            push_char(&mut line, '\n');
            proof {
                assert(line@ =~= move_line(duration_ms, angles@));
            }
            Ok(line)
        },
    }
}

/// The line that asks for the angle of `channel`, for a channel that has a
/// hexadecimal digit.
pub fn get_command(channel: u8) -> (line: String)
    requires
        channel < 16,
    ensures
        line@ == get_line(channel),
{
    let mut line = String::from_str("GET ");
    proof {
        reveal_strlit("GET ");
        assert(line@ =~= seq!['G', 'E', 'T', ' ']);
    }
    push_char(&mut line, channel_to_hex(channel));
    push_char(&mut line, '\n');
    proof {
        assert(line@ =~= get_line(channel));
    }
    line
}

/// The line that asks for the angle of `channel`.
pub fn encode_get(channel: u8) -> (r: Result<String, ServoError>)
    ensures
        text_outcome(r) == encoded(channel_fault(channel), get_line(channel)),
{
    if channel >= NUM_SERVOS {
        return Err(ServoError::InvalidChannel(channel));
    }
    Ok(get_command(channel))
}

} // verus!
