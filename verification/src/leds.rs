use vstd::prelude::*;

use crate::pixel::PixelDriver;
use crate::pwm::{
    duty_for, lemma_channel_after_ok, triple_after, triple_healthy, triple_shows, triple_wf,
    Polarity, PwmChannel,
};
use crate::types::{ActuationError, Colour, DriverError};

verus! {

/// The common-anode triple: three active-low PWM channels, one per colour
/// component. Duty is inverted relative to intensity.
#[derive(Clone, Copy, PartialEq, Eq, Structural, Debug)]
pub struct AnodeLeds {
    pub red: PwmChannel,
    pub green: PwmChannel,
    pub blue: PwmChannel,
}

/// The common-cathode triple: three active-high PWM channels, one per colour
/// component. Duty follows intensity directly.
#[derive(Clone, Copy, PartialEq, Eq, Structural, Debug)]
pub struct CathodeLeds {
    pub red: PwmChannel,
    pub green: PwmChannel,
    pub blue: PwmChannel,
}

impl AnodeLeds {
    pub open spec fn wf(self) -> bool {
        triple_wf(self.red, self.green, self.blue)
    }

    pub open spec fn healthy(self) -> bool {
        triple_healthy(self.red, self.green, self.blue)
    }

    pub open spec fn shows(self, c: Colour) -> bool {
        triple_shows(self.red, self.green, self.blue, c, Polarity::ActiveLow)
    }

    /// The triple after applying `c`, including a partial pass cut short by
    /// the first failing channel.
    pub open spec fn after_apply(self, c: Colour) -> AnodeLeds {
        let t = triple_after(self.red, self.green, self.blue, c, Polarity::ActiveLow);
        AnodeLeds { red: t.0, green: t.1, blue: t.2 }
    }

    pub fn new(red: PwmChannel, green: PwmChannel, blue: PwmChannel) -> (t: AnodeLeds)
        ensures
            t == (AnodeLeds { red, green, blue }),
    {
        AnodeLeds { red, green, blue }
    }

    /// Drives all three channels to represent `c`, inverting each component
    /// for the active-low wiring, and reports the duties chosen. The first
    /// failing channel aborts the pass; earlier channels keep their new
    /// duties (no rollback).
    pub fn apply(&mut self, rgb: Colour) -> (r: Result<(u32, u32, u32), DriverError>)
        requires
            old(self).wf(),
        ensures
            final(self).wf(),
            *final(self) == old(self).after_apply(rgb),
            r is Ok <==> old(self).healthy(),
            r matches Ok(d) ==> {
                &&& final(self).shows(rgb)
                &&& d.0 == duty_for(Polarity::ActiveLow, rgb.r, old(self).red.max_duty)
                &&& d.1 == duty_for(Polarity::ActiveLow, rgb.g, old(self).green.max_duty)
                &&& d.2 == duty_for(Polarity::ActiveLow, rgb.b, old(self).blue.max_duty)
            },
    {
        let dr = match self.red.drive(rgb.r, Polarity::ActiveLow) {
            Ok(d) => d,
            Err(e) => {
                return Err(e);
            },
        };
        let dg = match self.green.drive(rgb.g, Polarity::ActiveLow) {
            Ok(d) => d,
            Err(e) => {
                return Err(e);
            },
        };
        let db = match self.blue.drive(rgb.b, Polarity::ActiveLow) {
            Ok(d) => d,
            Err(e) => {
                return Err(e);
            },
        };
        Ok((dr, dg, db))
    }
}

impl CathodeLeds {
    pub open spec fn wf(self) -> bool {
        triple_wf(self.red, self.green, self.blue)
    }

    pub open spec fn healthy(self) -> bool {
        triple_healthy(self.red, self.green, self.blue)
    }

    pub open spec fn shows(self, c: Colour) -> bool {
        triple_shows(self.red, self.green, self.blue, c, Polarity::ActiveHigh)
    }

    /// The triple after applying `c`, including a partial pass cut short by
    /// the first failing channel.
    pub open spec fn after_apply(self, c: Colour) -> CathodeLeds {
        let t = triple_after(self.red, self.green, self.blue, c, Polarity::ActiveHigh);
        CathodeLeds { red: t.0, green: t.1, blue: t.2 }
    }

    pub fn new(red: PwmChannel, green: PwmChannel, blue: PwmChannel) -> (t: CathodeLeds)
        ensures
            t == (CathodeLeds { red, green, blue }),
    {
        CathodeLeds { red, green, blue }
    }

    /// Drives all three channels to represent `c` without inversion, and
    /// reports the duties chosen. The first failing channel aborts the pass;
    /// earlier channels keep their new duties (no rollback).
    pub fn apply(&mut self, rgb: Colour) -> (r: Result<(u32, u32, u32), DriverError>)
        requires
            old(self).wf(),
        ensures
            final(self).wf(),
            *final(self) == old(self).after_apply(rgb),
            r is Ok <==> old(self).healthy(),
            r matches Ok(d) ==> {
                &&& final(self).shows(rgb)
                &&& d.0 == duty_for(Polarity::ActiveHigh, rgb.r, old(self).red.max_duty)
                &&& d.1 == duty_for(Polarity::ActiveHigh, rgb.g, old(self).green.max_duty)
                &&& d.2 == duty_for(Polarity::ActiveHigh, rgb.b, old(self).blue.max_duty)
            },
    {
        let dr = match self.red.drive(rgb.r, Polarity::ActiveHigh) {
            Ok(d) => d,
            Err(e) => {
                return Err(e);
            },
        };
        let dg = match self.green.drive(rgb.g, Polarity::ActiveHigh) {
            Ok(d) => d,
            Err(e) => {
                return Err(e);
            },
        };
        let db = match self.blue.drive(rgb.b, Polarity::ActiveHigh) {
            Ok(d) => d,
            Err(e) => {
                return Err(e);
            },
        };
        Ok((dr, dg, db))
    }
}

/// The combined output handle: the addressable pixel and both PWM triples,
/// updated as one unit so that every mechanism represents the same colour.
#[derive(Clone, Copy, PartialEq, Eq, Structural, Debug)]
pub struct Leds {
    pub ws: PixelDriver,
    pub anode: AnodeLeds,
    pub cathode: CathodeLeds,
}

impl Leds {
    pub open spec fn wf(self) -> bool {
        self.anode.wf() && self.cathode.wf()
    }

    /// No mechanism has a failing driver.
    pub open spec fn healthy(self) -> bool {
        !self.ws.failed && self.anode.healthy() && self.cathode.healthy()
    }

    /// Every mechanism represents the colour `c`: the pixel shows it and all
    /// six PWM channels hold exactly the duties owed to it.
    pub open spec fn shows(self, c: Colour) -> bool {
        &&& self.ws.shown == c
        &&& self.anode.shows(c)
        &&& self.cathode.shows(c)
    }

    /// The PWM side after one apply pass: the anode triple first, and the
    /// cathode triple only if the whole anode pass succeeded.
    pub open spec fn after_pwm(self, c: Colour) -> Leds {
        if !self.anode.healthy() {
            Leds { anode: self.anode.after_apply(c), ..self }
        } else {
            Leds {
                anode: self.anode.after_apply(c),
                cathode: self.cathode.after_apply(c),
                ..self
            }
        }
    }

    /// The whole handle after `set_color(c)`: the pixel first, then the PWM
    /// bank; a failing stage stops the sequence and nothing already updated
    /// is rolled back.
    pub open spec fn after_set(self, c: Colour) -> Leds {
        if self.ws.failed {
            self
        } else {
            Leds { ws: (PixelDriver { shown: c, ..self.ws }), ..self }.after_pwm(c)
        }
    }

    pub fn new(ws: PixelDriver, anode: AnodeLeds, cathode: CathodeLeds) -> (l: Leds)
        ensures
            l == (Leds { ws, anode, cathode }),
    {
        Leds { ws, anode, cathode }
    }

    /// Drives all six PWM channels to represent `c` across both polarities
    /// and reports the duties chosen: the anode triple's, then the cathode
    /// triple's.
    pub fn apply_pwm(&mut self, rgb: Colour) -> (r: Result<
        (u32, u32, u32, u32, u32, u32),
        DriverError,
    >)
        requires
            old(self).wf(),
        ensures
            final(self).wf(),
            *final(self) == old(self).after_pwm(rgb),
            r is Ok <==> old(self).anode.healthy() && old(self).cathode.healthy(),
            r matches Ok(d) ==> {
                &&& final(self).anode.shows(rgb)
                &&& final(self).cathode.shows(rgb)
                &&& d.0 == duty_for(Polarity::ActiveLow, rgb.r, old(self).anode.red.max_duty)
                &&& d.1 == duty_for(Polarity::ActiveLow, rgb.g, old(self).anode.green.max_duty)
                &&& d.2 == duty_for(Polarity::ActiveLow, rgb.b, old(self).anode.blue.max_duty)
                &&& d.3 == duty_for(Polarity::ActiveHigh, rgb.r, old(self).cathode.red.max_duty)
                &&& d.4 == duty_for(Polarity::ActiveHigh, rgb.g, old(self).cathode.green.max_duty)
                &&& d.5 == duty_for(Polarity::ActiveHigh, rgb.b, old(self).cathode.blue.max_duty)
            },
    {
        let a = match self.anode.apply(rgb) {
            Ok(d) => d,
            Err(e) => {
                return Err(e);
            },
        };
        let c = match self.cathode.apply(rgb) {
            Ok(d) => d,
            Err(e) => {
                return Err(e);
            },
        };
        Ok((a.0, a.1, a.2, c.0, c.1, c.2))
    }

    /// A healthy, well-formed handle, once a colour is applied, stays healthy
    /// and represents exactly that colour on every mechanism.
    pub proof fn lemma_after_set_shows(self, c: Colour)
        requires
            self.wf(),
            self.healthy(),
        ensures
            self.after_set(c).wf(),
            self.after_set(c).healthy(),
            self.after_set(c).shows(c),
    {
        lemma_channel_after_ok(self.anode.red, c.r, Polarity::ActiveLow);
        lemma_channel_after_ok(self.anode.green, c.g, Polarity::ActiveLow);
        lemma_channel_after_ok(self.anode.blue, c.b, Polarity::ActiveLow);
        lemma_channel_after_ok(self.cathode.red, c.r, Polarity::ActiveHigh);
        lemma_channel_after_ok(self.cathode.green, c.g, Polarity::ActiveHigh);
        lemma_channel_after_ok(self.cathode.blue, c.b, Polarity::ActiveHigh);
    }

    /// Idempotence: applying the same colour a second time leaves the handle
    /// exactly as the first application left it — the same duties come out
    /// both times — and the second application is healthy, so it succeeds.
    pub proof fn lemma_apply_idempotent(self, c: Colour)
        requires
            self.wf(),
            self.healthy(),
        ensures
            self.after_set(c).healthy(),
            self.after_set(c).after_set(c) == self.after_set(c),
    {
        self.lemma_after_set_shows(c);
        self.after_set(c).lemma_after_set_shows(c);
    }

    /// Last write wins: applying one colour and then another leaves the
    /// handle exactly as applying the second alone would have — every
    /// mechanism represents the later colour and no trace of the earlier one
    /// remains, so no torn mixture of the two is observable.
    pub proof fn lemma_last_write_wins(self, first: Colour, second: Colour)
        requires
            self.wf(),
            self.healthy(),
        ensures
            self.after_set(first).after_set(second) == self.after_set(second),
            self.after_set(first).after_set(second).shows(second),
    {
        self.lemma_after_set_shows(first);
        self.after_set(first).lemma_after_set_shows(second);
        self.lemma_after_set_shows(second);
    }

    /// Applies one logical colour to every output mechanism, in the fixed
    /// order pixel first, then PWM bank. Success is returned only when both
    /// stages succeed; a failing stage is surfaced at once, tagged with the
    /// mechanism that failed, and whatever was already updated stays updated
    /// (a later successful call heals the inconsistency).
    pub fn set_color(&mut self, rgb: Colour) -> (r: Result<(), ActuationError>)
        requires
            old(self).wf(),
        ensures
            final(self).wf(),
            *final(self) == old(self).after_set(rgb),
            r is Ok <==> old(self).healthy(),
            old(self).healthy() ==> final(self).shows(rgb),
            old(self).ws.failed ==> (r matches Err(e) && e is Pixel),
            !old(self).ws.failed && !(old(self).anode.healthy() && old(self).cathode.healthy())
                ==> (r matches Err(e) && e is PwmBank),
    {
        match self.ws.set_pixel(rgb) {
            Ok(_) => {},
            Err(e) => {
                return Err(ActuationError::Pixel(e));
            },
        };
        match self.apply_pwm(rgb) {
            Ok(_) => Ok(()),
            Err(e) => Err(ActuationError::PwmBank(e)),
        }
    }
}

} // verus!
