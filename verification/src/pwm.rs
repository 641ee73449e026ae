use vstd::prelude::*;

use crate::duty::{anode_duty, cathode_duty, compute_scaled_duty, lemma_duty_in_range};
use crate::types::{Colour, DriverError};

verus! {

/// Electrical polarity of a PWM-driven LED channel.
#[derive(Clone, Copy, PartialEq, Eq, Structural, Debug)]
pub enum Polarity {
    /// Common-anode wiring: a higher duty means a dimmer output, so the
    /// intensity is inverted before scaling.
    ActiveLow,
    /// Common-cathode wiring: the duty follows the intensity directly.
    ActiveHigh,
}

/// Duty owed to a channel of the given polarity for one colour component.
pub open spec fn duty_for(pol: Polarity, component: u8, max: u32) -> int {
    match pol {
        Polarity::ActiveLow => anode_duty(component, max),
        Polarity::ActiveHigh => cathode_duty(component, max),
    }
}

/// One PWM output channel: the commanded state that the hardware driver
/// behind it must mirror. `max_duty` is the channel's configured resolution
/// (a hardware property, read once at initialization; channels may differ).
/// `failed` records that the channel's driver is currently refusing
/// operations; the runtime sets it when the hardware layer reports a fault,
/// and tests use it to simulate one.
#[derive(Clone, Copy, PartialEq, Eq, Structural, Debug)]
pub struct PwmChannel {
    pub max_duty: u32,
    pub duty: u32,
    pub enabled: bool,
    pub failed: bool,
}

/// The channel state after driving one colour component: unchanged when its
/// driver is failing, otherwise enabled and holding exactly the duty owed.
pub open spec fn channel_after(ch: PwmChannel, component: u8, pol: Polarity) -> PwmChannel {
    if ch.failed {
        ch
    } else {
        PwmChannel {
            duty: duty_for(pol, component, ch.max_duty) as u32,
            enabled: true,
            ..ch
        }
    }
}

impl PwmChannel {
    /// A channel is well formed when its resolution was configured (a zero
    /// maximum duty is a configuration error caught at initialization) and
    /// its commanded duty does not exceed that resolution.
    pub open spec fn wf(self) -> bool {
        &&& self.max_duty >= 1
        &&& self.duty <= self.max_duty
    }

    pub fn new(max_duty: u32) -> (ch: PwmChannel)
        requires
            max_duty >= 1,
        ensures
            ch == (PwmChannel { max_duty, duty: 0, enabled: false, failed: false }),
            ch.wf(),
    {
        PwmChannel { max_duty, duty: 0, enabled: false, failed: false }
    }

    /// Enables the channel (idempotent) and sets the duty owed to one colour
    /// component under the given polarity. A failing driver refuses both
    /// steps and leaves the channel untouched.
    pub fn drive(&mut self, component: u8, pol: Polarity) -> (r: Result<u32, DriverError>)
        requires
            old(self).wf(),
        ensures
            final(self).wf(),
            *final(self) == channel_after(*old(self), component, pol),
            r is Ok <==> !old(self).failed,
            r matches Ok(d) ==> d == duty_for(pol, component, old(self).max_duty),
    {
        if self.failed {
            return Err(DriverError);
        }
        self.enabled = true;
        let duty = match pol {
            Polarity::ActiveLow => compute_scaled_duty(255 - component as u32, self.max_duty),
            Polarity::ActiveHigh => compute_scaled_duty(component as u32, self.max_duty),
        };
        self.duty = duty;
        proof {
            lemma_duty_in_range(255 - component, old(self).max_duty as int);
            lemma_duty_in_range(component as int, old(self).max_duty as int);
        }
        Ok(duty)
    }
}

/// A healthy channel, once driven, is enabled, stays well formed, and holds
/// exactly the duty owed to its component; its configuration and fault flag
/// are untouched.
pub proof fn lemma_channel_after_ok(ch: PwmChannel, component: u8, pol: Polarity)
    requires
        ch.wf(),
        !ch.failed,
    ensures
        channel_after(ch, component, pol).wf(),
        channel_after(ch, component, pol).enabled,
        channel_after(ch, component, pol).duty == duty_for(pol, component, ch.max_duty),
        channel_after(ch, component, pol).max_duty == ch.max_duty,
        !channel_after(ch, component, pol).failed,
{
    lemma_duty_in_range(255 - component, ch.max_duty as int);
    lemma_duty_in_range(component as int, ch.max_duty as int);
}

/// All three channels of a triple are well formed.
pub open spec fn triple_wf(red: PwmChannel, green: PwmChannel, blue: PwmChannel) -> bool {
    red.wf() && green.wf() && blue.wf()
}

/// No channel of a triple has a failing driver.
pub open spec fn triple_healthy(red: PwmChannel, green: PwmChannel, blue: PwmChannel) -> bool {
    !red.failed && !green.failed && !blue.failed
}

/// A triple represents the colour `c` under the given polarity: every channel
/// is enabled and holds exactly the duty owed to its component of `c`.
pub open spec fn triple_shows(
    red: PwmChannel,
    green: PwmChannel,
    blue: PwmChannel,
    c: Colour,
    pol: Polarity,
) -> bool {
    &&& red.enabled && red.duty == duty_for(pol, c.r, red.max_duty)
    &&& green.enabled && green.duty == duty_for(pol, c.g, green.max_duty)
    &&& blue.enabled && blue.duty == duty_for(pol, c.b, blue.max_duty)
}

/// The triple state after applying `c` in the fixed red, green, blue order.
/// The first failing channel aborts the pass; channels before it keep their
/// new duties (partial application is allowed and never rolled back).
pub open spec fn triple_after(
    red: PwmChannel,
    green: PwmChannel,
    blue: PwmChannel,
    c: Colour,
    pol: Polarity,
) -> (PwmChannel, PwmChannel, PwmChannel) {
    if red.failed {
        (red, green, blue)
    } else if green.failed {
        (channel_after(red, c.r, pol), green, blue)
    } else if blue.failed {
        (channel_after(red, c.r, pol), channel_after(green, c.g, pol), blue)
    } else {
        (
            channel_after(red, c.r, pol),
            channel_after(green, c.g, pol),
            channel_after(blue, c.b, pol),
        )
    }
}

} // verus!
