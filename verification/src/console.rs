//! The visibility flag of the console overlay.

use vstd::prelude::*;

verus! {

/// Whether the console overlay is shown.
///
/// The flag is made once, hidden, when the host starts. Only the routine that
/// handles the toggle key writes it afterwards.
#[derive(Debug, Clone, Copy, PartialEq, Eq, Structural)]
pub struct Console {
    pub is_visible: bool,
}

impl Console {
    /// The flag as it is at startup: the overlay is hidden.
    pub fn new() -> (r: Self)
        ensures
            r == (Console { is_visible: false }),
    {
        Console { is_visible: false }
    }

    /// Takes the toggle key's signal for one tick of the host. The overlay
    /// changes between shown and hidden on the tick in which the key went
    /// down, and stays as it is on every other tick.
    pub fn on_toggle_key(&mut self, just_pressed: bool)
        ensures
            final(self).is_visible == (old(self).is_visible != just_pressed),
    {
        if just_pressed {
            self.is_visible = !self.is_visible;
        }
    }
}

impl Default for Console {
    fn default() -> (r: Self)
        ensures
            r == (Console { is_visible: false }),
    {
        Console::new()
    }
}

} // verus!
