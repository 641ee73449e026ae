use vstd::prelude::*;

verus! {

/// Duty owed to a channel whose 0-255 numerator is `n` and whose configured
/// resolution is `max`: the intensity fraction `n / 255` scaled to `max`,
/// truncated toward zero.
pub open spec fn scaled_duty(n: int, max: int) -> int {
    (n * max) / 255
}

/// Duty for a common-anode (active-low) channel: the polarity is inverted, so
/// full intensity pulls the duty toward zero.
pub open spec fn anode_duty(component: u8, max: u32) -> int {
    scaled_duty(255 - component, max as int)
}

/// Duty for a common-cathode (active-high) channel: the duty follows the
/// intensity directly.
pub open spec fn cathode_duty(component: u8, max: u32) -> int {
    scaled_duty(component as int, max as int)
}

/// Every duty lies within `[0, max]`, whatever the channel's resolution:
/// scaling a 0-255 numerator can neither overshoot the configured maximum
/// nor undershoot zero.
pub proof fn lemma_duty_in_range(n: int, max: int)
    requires
        0 <= n <= 255,
        0 <= max,
    ensures
        0 <= scaled_duty(n, max) <= max,
{
    assert(0 <= (n * max) / 255 <= max) by (nonlinear_arith)
        requires
            0 <= n <= 255,
            0 <= max,
    ;
}

/// Computes `scaled_duty` for one channel without overflow.
pub fn compute_scaled_duty(n: u32, max: u32) -> (duty: u32)
    requires
        n <= 255,
    ensures
        duty == scaled_duty(n as int, max as int),
        duty <= max,
{
    proof {
        lemma_duty_in_range(n as int, max as int);
        assert((n as u64) * (max as u64) <= 255u64 * 0xffff_ffffu64) by (nonlinear_arith)
            requires
                n <= 255,
                max <= 0xffff_ffffu64,
        ;
    }
    (((n as u64) * (max as u64)) / 255) as u32
}

} // verus!
