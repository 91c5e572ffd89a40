//! Gesture-to-command interpretation for a touchscreen robot remote.
//!
//! Continuous pointer motion on a drag surface is quantized into one of
//! five directions, a per-control state machine turns direction changes
//! into ordered release/press command pairs, tap buttons emit one-shot
//! pulses while locking out the drag classification of their surface,
//! and sliders validate numeric input before emitting value commands.
//! The network transport and the rendering around these controls are
//! deliberately outside this crate: every function here is pure logic
//! over plain values.

pub mod command;
pub mod controls;
pub mod direction;
pub mod geometry;
pub mod numeric;
pub mod slider;
pub mod state;
pub mod tailwind;
