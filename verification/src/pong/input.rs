//! What the host reports about the keyboard at the start of a tick.

use vstd::prelude::*;

verus! {

/// Which of the four paddle keys are held down during one tick.
///
/// `w` and `s` move the left paddle up and down, `arrow_up` and `arrow_down`
/// the right one. The bindings are fixed.
#[derive(Clone, Copy, Debug, PartialEq, Eq, Structural)]
pub struct FrameInput {
    pub w: bool,
    pub s: bool,
    pub arrow_up: bool,
    pub arrow_down: bool,
}

impl FrameInput {
    /// A tick during which no key is held.
    pub fn idle() -> (input: FrameInput)
        ensures
            input == (FrameInput { w: false, s: false, arrow_up: false, arrow_down: false }),
    {
        FrameInput { w: false, s: false, arrow_up: false, arrow_down: false }
    }
}

} // verus!
