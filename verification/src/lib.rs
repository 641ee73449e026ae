//! Colour actuation core for a dual-mechanism LED controller.
//!
//! A single logical colour is fanned out to two physically different output
//! mechanisms: one addressable serial pixel and a pair of three-channel PWM
//! triples wired with opposite electrical polarity (common-anode, active-low;
//! common-cathode, active-high). The library holds the duty-cycle arithmetic,
//! the actuation orchestration, and the shared current-colour cell; the
//! surrounding runtime owns the real peripherals and the network boundary and
//! mirrors the states recorded here onto the hardware.

pub mod api;
pub mod duty;
pub mod leds;
pub mod pixel;
pub mod pwm;
pub mod state;
pub mod types;
