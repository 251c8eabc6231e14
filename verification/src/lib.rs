//! Control core of a six-channel robot-arm servo controller that is reached
//! over a serial line.
//!
//! The crate performs no I/O. Every exchange with the device is a small state
//! machine: it names the next port action, the driver performs it and reports
//! the outcome as an event, and the machine answers with its next state or its
//! result. All decisions (validation, wire encoding, reply decoding, fault
//! classification, reconnection) are made here.

pub mod codec;
pub mod error;
pub mod exchange;
pub mod handlers;
pub mod models;
pub mod response;
pub mod serial;
pub mod text;
