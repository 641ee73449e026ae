use vstd::prelude::*;

use crate::types::Colour;

verus! {

/// The shared current-colour cell: the last accepted logical colour, created
/// at startup with a default and overwritten unconditionally on every
/// accepted update. The cell itself never fails; the runtime guards it with
/// a mutual-exclusion lock held only for the duration of the copy or
/// overwrite, never across a hardware call.
#[derive(Clone, Copy, PartialEq, Eq, Structural, Debug)]
pub struct ColourState {
    pub current: Colour,
}

impl ColourState {
    pub fn new(default: Colour) -> (s: ColourState)
        ensures
            s == (ColourState { current: default }),
    {
        ColourState { current: default }
    }

    /// A copy of the last accepted colour, or the startup default if none
    /// was ever set.
    pub fn get(&self) -> (c: Colour)
        ensures
            c == self.current,
    {
        self.current
    }

    /// Overwrites the current colour unconditionally.
    pub fn set(&mut self, c: Colour)
        ensures
            *final(self) == (ColourState { current: c }),
    {
        self.current = c;
    }
}

} // verus!
