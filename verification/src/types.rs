use vstd::prelude::*;

verus! {

/// A logical colour: red, green and blue intensities, each an 8-bit value.
/// Compared and copied by value; no alpha channel and no colour-space tag.
#[derive(Clone, Copy, PartialEq, Eq, Structural, Debug)]
pub struct Colour {
    pub r: u8,
    pub g: u8,
    pub b: u8,
}

impl Colour {
    pub fn new(r: u8, g: u8, b: u8) -> (c: Colour)
        ensures
            c == (Colour { r, g, b }),
    {
        Colour { r, g, b }
    }
}

impl Default for Colour {
    /// The startup colour: black, so every output begins dark.
    fn default() -> (c: Colour)
        ensures
            c == (Colour { r: 0, g: 0, b: 0 }),
    {
        Colour { r: 0, g: 0, b: 0 }
    }
}

/// A hardware-layer call (pixel transmit, channel enable, duty set) failed,
/// for example because the transmission resource was busy. Never retried
/// inside the core; always surfaced to the caller.
#[derive(Clone, Copy, PartialEq, Eq, Structural, Debug)]
pub struct DriverError;

/// A `DriverError` that occurred while applying a colour, tagged with the
/// output mechanism that failed.
#[derive(Clone, Copy, PartialEq, Eq, Structural, Debug)]
pub enum ActuationError {
    /// The addressable pixel transmission failed.
    Pixel(DriverError),
    /// One of the six PWM channels failed to enable or to take its duty.
    PwmBank(DriverError),
}

} // verus!
