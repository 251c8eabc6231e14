//! The shapes of the requests and replies of the network interface.

use vstd::prelude::*;

verus! {

/// Request to set a servo's angle.
#[derive(Debug, PartialEq, Eq)]
pub struct SetAngleRequest {
    pub angle: u8,
}

/// Request to set a servo's pulse width.
#[derive(Debug, PartialEq, Eq)]
pub struct SetPwmRequest {
    pub pulse_us: u16,
}

/// Request to apply a pose.
#[derive(Debug, PartialEq, Eq)]
pub struct PoseRequest {
    pub angles: Vec<u8>,
}

/// Request to move to a pose over a duration.
#[derive(Debug, PartialEq, Eq)]
pub struct MoveRequest {
    pub duration_ms: u16,
    pub angles: Vec<u8>,
}

/// The position of one servo.
#[derive(Debug, PartialEq, Eq)]
pub struct ServoPosition {
    pub channel: u8,
    pub angle: u8,
}

/// The positions of the servos that answered.
#[derive(Debug, PartialEq, Eq)]
pub struct ServoPositions {
    pub servos: Vec<ServoPosition>,
}

/// Reply to a command that succeeded.
#[derive(Debug, PartialEq, Eq)]
pub struct SuccessResponse {
    pub status: String,
}

/// Reply to a request that failed.
#[derive(Debug, PartialEq, Eq)]
pub struct ErrorResponse {
    pub error: String,
}

/// Reply to a health check.
#[derive(Debug, PartialEq, Eq)]
pub struct HealthResponse {
    pub status: String,
    pub serial: String,
}

} // verus!
