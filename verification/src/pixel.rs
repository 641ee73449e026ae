use vstd::prelude::*;

use crate::types::{Colour, DriverError};

verus! {

/// The single addressable RGB pixel: the last colour committed to its timed
/// serial bitstream, which the hardware transmitter behind it must mirror.
/// `failed` records that the transmission resource is currently refusing
/// operations (busy bus, unavailable transmit queue); the runtime sets it
/// when the hardware layer reports a fault, and tests use it to simulate one.
#[derive(Clone, Copy, PartialEq, Eq, Structural, Debug)]
pub struct PixelDriver {
    pub shown: Colour,
    pub failed: bool,
}

impl PixelDriver {
    pub fn new(initial: Colour) -> (p: PixelDriver)
        ensures
            p == (PixelDriver { shown: initial, failed: false }),
    {
        PixelDriver { shown: initial, failed: false }
    }

    /// Transmits `rgb` to the pixel, overwriting whatever it showed before.
    /// A failing transmitter refuses the whole transmission and leaves the
    /// previous colour in place; the failure is not retried here.
    pub fn set_pixel(&mut self, rgb: Colour) -> (r: Result<(), DriverError>)
        ensures
            final(self).failed == old(self).failed,
            r is Ok <==> !old(self).failed,
            !old(self).failed ==> final(self).shown == rgb,
            old(self).failed ==> *final(self) == *old(self),
    {
        if self.failed {
            return Err(DriverError);
        }
        self.shown = rgb;
        Ok(())
    }
}

} // verus!
