use vstd::prelude::*;

use crate::leds::Leds;
use crate::state::ColourState;
use crate::types::{ActuationError, Colour};

verus! {

/// The current colour, for rendering a status response. Never fails.
pub fn current_colour(state: &ColourState) -> (c: Colour)
    ensures
        c == state.current,
{
    state.get()
}

/// The one update entry point of the core. With a colour supplied, it is
/// stored first — unconditionally, so a later status request reports the
/// requested colour even if actuation then fails partway — and then applied
/// to every output mechanism; the newly applied colour is returned. With no
/// colour supplied, actuation is skipped and the previously stored colour is
/// returned unchanged.
pub fn apply_and_store(
    state: &mut ColourState,
    leds: &mut Leds,
    input: Option<Colour>,
) -> (r: Result<Colour, ActuationError>)
    requires
        old(leds).wf(),
    ensures
        final(leds).wf(),
        input is None ==> {
            &&& *final(state) == *old(state)
            &&& *final(leds) == *old(leds)
            &&& r matches Ok(c) && c == old(state).current
        },
        input matches Some(c) ==> {
            &&& final(state).current == c
            &&& *final(leds) == old(leds).after_set(c)
            &&& (r is Ok <==> old(leds).healthy())
            &&& (r matches Ok(rc) ==> rc == c && final(leds).shows(c))
            &&& (old(leds).ws.failed ==> (r matches Err(e) && e is Pixel))
            &&& (!old(leds).ws.failed && !old(leds).healthy() ==> (r matches Err(e)
                && e is PwmBank))
        },
{
    match input {
        None => Ok(state.get()),
        Some(c) => {
            state.set(c);
            match leds.set_color(c) {
                Ok(_) => Ok(c),
                Err(e) => Err(e),
            }
        },
    }
}

} // verus!
