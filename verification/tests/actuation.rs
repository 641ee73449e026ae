use actuation_core::api::{apply_and_store, current_colour};
use actuation_core::duty::compute_scaled_duty;
use actuation_core::leds::{AnodeLeds, CathodeLeds, Leds};
use actuation_core::pixel::PixelDriver;
use actuation_core::pwm::{Polarity, PwmChannel};
use actuation_core::state::ColourState;
use actuation_core::types::{ActuationError, Colour, DriverError};

fn bank(max: u32) -> Leds {
    let anode = AnodeLeds::new(PwmChannel::new(max), PwmChannel::new(max), PwmChannel::new(max));
    let cathode =
        CathodeLeds::new(PwmChannel::new(max), PwmChannel::new(max), PwmChannel::new(max));
    Leds::new(PixelDriver::new(Colour::default()), anode, cathode)
}

fn duties(leds: &Leds) -> (u32, u32, u32, u32, u32, u32) {
    (
        leds.anode.red.duty,
        leds.anode.green.duty,
        leds.anode.blue.duty,
        leds.cathode.red.duty,
        leds.cathode.green.duty,
        leds.cathode.blue.duty,
    )
}

#[test]
fn end_to_end_full_red_no_green_half_blue() {
    let mut leds = bank(1023);
    let mut state = ColourState::new(Colour::default());
    let c = Colour::new(255, 0, 128);
    let r = apply_and_store(&mut state, &mut leds, Some(c));
    assert_eq!(r, Ok(c));
    // Anode duties are inverted: (255 - component) * max / 1023, truncated.
    assert_eq!(leds.anode.red.duty, 0);
    assert_eq!(leds.anode.green.duty, 1023);
    assert_eq!(leds.anode.blue.duty, (255 - 128) * 1023 / 255);
    assert_eq!(leds.anode.blue.duty, 509);
    // Cathode duties follow intensity directly: component * max / 255.
    assert_eq!(leds.cathode.red.duty, 1023);
    assert_eq!(leds.cathode.green.duty, 0);
    assert_eq!(leds.cathode.blue.duty, 128 * 1023 / 255);
    assert_eq!(leds.cathode.blue.duty, 513);
    assert_eq!(leds.ws.shown, c);
}

#[test]
fn end_to_end_black_is_fully_off_on_both_polarities() {
    let mut leds = bank(1023);
    let mut state = ColourState::new(Colour::default());
    let r = apply_and_store(&mut state, &mut leds, Some(Colour::new(0, 0, 0)));
    assert!(r.is_ok());
    // Active-low: off means the duty sits at the maximum.
    assert_eq!(
        (leds.anode.red.duty, leds.anode.green.duty, leds.anode.blue.duty),
        (1023, 1023, 1023)
    );
    // Active-high: off means zero duty. Inversion applies only to the anode triple.
    assert_eq!(
        (leds.cathode.red.duty, leds.cathode.green.duty, leds.cathode.blue.duty),
        (0, 0, 0)
    );
}

#[test]
fn duty_formula_holds_per_channel_with_distinct_resolutions() {
    let anode =
        AnodeLeds::new(PwmChannel::new(1023), PwmChannel::new(4095), PwmChannel::new(255));
    let cathode =
        CathodeLeds::new(PwmChannel::new(8191), PwmChannel::new(100), PwmChannel::new(1));
    let mut leds = Leds::new(PixelDriver::new(Colour::default()), anode, cathode);
    let c = Colour::new(10, 200, 77);
    let r = leds.set_color(c);
    assert_eq!(r, Ok(()));
    assert_eq!(leds.anode.red.duty, (255 - 10) * 1023 / 255);
    assert_eq!(leds.anode.green.duty, (255 - 200) * 4095 / 255);
    assert_eq!(leds.anode.blue.duty, (255 - 77) * 255 / 255);
    assert_eq!(leds.cathode.red.duty, 10 * 8191 / 255);
    assert_eq!(leds.cathode.green.duty, 200 * 100 / 255);
    assert_eq!(leds.cathode.blue.duty, 77 * 1 / 255);
}

#[test]
fn duties_stay_within_channel_resolution() {
    let maxes = [1u32, 2, 255, 256, 1023, 65535, u32::MAX];
    let samples = [0u8, 1, 127, 128, 254, 255];
    for &max in &maxes {
        for &v in &samples {
            let mut leds = bank(max);
            let c = Colour::new(v, v.wrapping_add(1), 255 - v);
            assert!(leds.set_color(c).is_ok());
            let (ar, ag, ab, cr, cg, cb) = duties(&leds);
            for d in [ar, ag, ab, cr, cg, cb] {
                assert!(d <= max);
            }
        }
    }
}

#[test]
fn scaled_duty_endpoints_and_truncation() {
    assert_eq!(compute_scaled_duty(0, u32::MAX), 0);
    assert_eq!(compute_scaled_duty(255, u32::MAX), u32::MAX);
    assert_eq!(compute_scaled_duty(255, 1023), 1023);
    // 1 * 509 / 255 = 1.996...: truncation goes toward zero.
    assert_eq!(compute_scaled_duty(1, 509), 1);
    assert_eq!(compute_scaled_duty(1, 254), 0);
}

#[test]
fn applying_the_same_colour_twice_is_idempotent() {
    let mut leds = bank(4095);
    let c = Colour::new(13, 240, 99);
    assert_eq!(leds.set_color(c), Ok(()));
    let first = duties(&leds);
    let second_result = leds.set_color(c);
    assert_eq!(second_result, Ok(()));
    assert_eq!(duties(&leds), first);
    assert_eq!(leds.ws.shown, c);
}

#[test]
fn store_happens_before_actuation_even_when_a_channel_fails() {
    let mut leds = bank(1023);
    leds.cathode.green.failed = true;
    let mut state = ColourState::new(Colour::default());
    let c = Colour::new(40, 50, 60);
    let r = apply_and_store(&mut state, &mut leds, Some(c));
    assert_eq!(r, Err(ActuationError::PwmBank(DriverError)));
    // The requested colour was stored before actuation was attempted.
    assert_eq!(current_colour(&state), c);
}

#[test]
fn pixel_failure_is_reported_as_the_pixel_mechanism() {
    let mut leds = bank(1023);
    leds.ws.failed = true;
    let mut state = ColourState::new(Colour::default());
    let c = Colour::new(1, 2, 3);
    let r = apply_and_store(&mut state, &mut leds, Some(c));
    assert_eq!(r, Err(ActuationError::Pixel(DriverError)));
    // The store still happened; nothing downstream was touched.
    assert_eq!(current_colour(&state), c);
    assert_eq!(duties(&leds), (0, 0, 0, 0, 0, 0));
    assert_eq!(leds.ws.shown, Colour::default());
}

#[test]
fn failed_channel_aborts_without_rolling_back_earlier_channels() {
    let mut leds = bank(1023);
    leds.anode.green.failed = true;
    let c = Colour::new(255, 255, 255);
    let r = leds.set_color(c);
    assert_eq!(r, Err(ActuationError::PwmBank(DriverError)));
    // The pixel and the anode red channel were already updated and stay so.
    assert_eq!(leds.ws.shown, c);
    assert_eq!(leds.anode.red.duty, 0);
    assert!(leds.anode.red.enabled);
    // The failing channel and everything after it keep their previous state.
    assert!(!leds.anode.green.enabled);
    assert!(!leds.anode.blue.enabled);
    assert!(!leds.cathode.red.enabled);
    assert_eq!(leds.anode.green.duty, 0);
    assert_eq!(leds.cathode.red.duty, 0);
}

#[test]
fn last_write_wins_and_no_torn_state_remains() {
    let mut leds = bank(1023);
    let mut state = ColourState::new(Colour::default());
    let a = Colour::new(255, 0, 0);
    let b = Colour::new(0, 128, 255);
    assert!(apply_and_store(&mut state, &mut leds, Some(a)).is_ok());
    assert!(apply_and_store(&mut state, &mut leds, Some(b)).is_ok());
    assert_eq!(current_colour(&state), b);
    assert_eq!(leds.ws.shown, b);
    // Every one of the six channels reflects b; none kept a's duty.
    let mut fresh = bank(1023);
    assert!(fresh.set_color(b).is_ok());
    assert_eq!(duties(&leds), duties(&fresh));
}

#[test]
fn absent_colour_skips_actuation_and_returns_the_stored_colour() {
    let mut leds = bank(1023);
    let mut state = ColourState::new(Colour::default());
    let c = Colour::new(9, 8, 7);
    assert!(apply_and_store(&mut state, &mut leds, Some(c)).is_ok());
    let before = duties(&leds);
    let r = apply_and_store(&mut state, &mut leds, None);
    assert_eq!(r, Ok(c));
    assert_eq!(duties(&leds), before);
    assert_eq!(leds.ws.shown, c);
}

#[test]
fn startup_default_colour_is_black() {
    let state = ColourState::new(Colour::default());
    assert_eq!(current_colour(&state), Colour::new(0, 0, 0));
}

#[test]
fn drive_reports_the_duty_it_set() {
    let mut ch = PwmChannel::new(1023);
    let d = ch.drive(128, Polarity::ActiveHigh);
    assert_eq!(d, Ok(513));
    assert_eq!(ch.duty, 513);
    assert!(ch.enabled);
    let mut low = PwmChannel::new(1023);
    assert_eq!(low.drive(128, Polarity::ActiveLow), Ok(509));
}
