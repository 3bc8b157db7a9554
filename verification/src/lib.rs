//! Decision core of a rover's onboard runtime.
//!
//! The runtime around this crate performs the waiting, the reading and the
//! sending. What has to be decided in between lives here, as machines that map
//! the outcome of the last operation to the next one: the control loop with
//! its dead-man timeout, the telemetry pipelines, and the supervisor that owns
//! the cancellation tree.

pub mod bus;
pub mod cancel;
pub mod control;
pub mod diagnostic;
pub mod fatal;
pub mod protocol;
pub mod reading;
pub mod status;
pub mod supervisor;
pub mod telemetry;
