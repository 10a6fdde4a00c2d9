//! Control and telemetry core of a pneumatically actuated mock circulatory
//! loop ("artificial heart") controller.
//!
//! The crate holds the logic of the firmware that is worth proving: the
//! cardiac phase clock, the phase controller's per-iteration state machine,
//! the host-liveness tracker, and the framed wire protocol (fixed-layout
//! serialization plus consistent-overhead zero-elimination framing) that
//! carries setpoints in and reports out.
//!
//! All quantities are modelled as plain integers so that every function can
//! be verified: durations in nanoseconds, heart rate in cycles per minute,
//! the systole ratio in thousandths (permille), pressures in millibar, and
//! raw sensor readings in their native integer units.  The hardware and the
//! async runtime around this logic live outside the crate and exchange plain
//! values with it.

pub mod cobs;
pub mod comms;
pub mod connection;
pub mod controller;
pub mod dac;
pub mod framing;
pub mod led;
pub mod loop_control;
pub mod messages;
pub mod phase;
pub mod wire;
