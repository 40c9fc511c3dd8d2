//! Core logic of a small LED firmware: an interrupt-driven blink/debounce
//! controller, a bit-banged addressable-LED-strip driver, and an
//! interrupt-safe cell for shared peripheral handles.
//!
//! The platform layer (pin and timer hardware, interrupt wiring) is outside
//! this crate: it hands the core plain values and performs the pin
//! transitions and timer rearms that the core's decisions call for.

pub mod blink;
pub mod cell;
pub mod led;
pub mod led_strip;
