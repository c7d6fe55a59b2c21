//! Control core of a touchscreen device: the touch-state machine that turns
//! controller samples into telemetry records and expression renders, the
//! sensor poller and telemetry drain decisions, and the face layouts.
pub mod face;
pub mod pipeline;
pub mod poller;
pub mod telemetry;
pub mod timing;
pub mod touch;
