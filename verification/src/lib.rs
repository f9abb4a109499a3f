//! Decision core of a rotary-encoder firmware.
//!
//! The crate holds everything the firmware decides: how quadrature samples
//! become counter ticks, what the push-button does, which text is put on the
//! display, how the wake-up channel between interrupt handlers and tasks
//! behaves, and what the periodic tasks do when they wake. Reading pins,
//! sleeping and driving the display are left to the caller, which hands in
//! plain values and carries out the actions it gets back.

pub mod text;
pub mod encoder;
pub mod message;
pub mod channel;
pub mod heartbeat;
pub mod display;
pub mod blink;
pub mod interrupts;
