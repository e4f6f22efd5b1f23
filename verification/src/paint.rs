//! A paint canvas: the history of brush stamps, and the brush that adds to
//! it while the mouse button is held.
//!
//! What a stamp looks like (where it is, how large, which colour) is up to
//! the host and is carried through untouched as a value of its choosing.

use vstd::prelude::*;

verus! {

/// One stamp of the brush.
#[derive(Debug, PartialEq, Eq)]
pub struct Stroke<T> {
    /// What the host paints for this stamp.
    pub stamp: T,
    /// Whether a line is to join this stamp to the one before it.
    pub connected: bool,
}

/// What the host reports about the left mouse button in one frame.
#[derive(Clone, Copy, Debug, PartialEq, Eq, Structural)]
pub struct MouseButtons {
    /// The button went down in this frame.
    pub pressed: bool,
    /// The button is down.
    pub down: bool,
    /// The button came up in this frame.
    pub released: bool,
}

/// Everything painted so far, oldest first.
pub struct Screen<T> {
    pub history: Vec<Stroke<T>>,
    pub last_was_connected: bool,
}

/// Whether stamp `index` of `history` is to be joined to the stamp before
/// it: it asks for that, and there is a stamp before it.
pub open spec fn joined<T>(history: Seq<Stroke<T>>, index: int) -> bool {
    0 < index < history.len() && history[index].connected
}

impl<T> Screen<T> {
    /// A blank canvas.
    pub fn new() -> (screen: Screen<T>)
        ensures
            screen.history@ == Seq::<Stroke<T>>::empty(),
            !screen.last_was_connected,
    {
        Screen { history: Vec::new(), last_was_connected: false }
    }

    /// Records one more stamp behind those already there.
    pub fn add_stroke(&mut self, stamp: T, is_connected: bool)
        ensures
            final(self).history@ == old(self).history@.push(
                Stroke { stamp, connected: is_connected },
            ),
            final(self).last_was_connected == is_connected,
    {
        self.history.push(Stroke { stamp, connected: is_connected });
        self.last_was_connected = is_connected;
    }

    /// Wipes the canvas.
    pub fn clear(&mut self)
        ensures
            final(self).history@ == Seq::<Stroke<T>>::empty(),
            !final(self).last_was_connected,
    {
        self.history.clear();
        self.last_was_connected = false;
    }

    /// Tells whether stamp `index` is to be joined to the one before it.
    /// The first stamp never is, whatever it asks for.
    pub fn joins_previous(&self, index: usize) -> (join: bool)
        ensures
            join == joined(self.history@, index as int),
    {
        index > 0 && index < self.history.len() && self.history[index].connected
    }
}

/// The stamps that one frame adds: a fresh, unconnected one if the button
/// went down, and after it a connected one if the brush is drawing and the
/// button is down.
pub open spec fn stamped<T>(drawing: bool, tip: T, buttons: MouseButtons) -> Seq<Stroke<T>> {
    let fresh = if buttons.pressed {
        seq![Stroke { stamp: tip, connected: false }]
    } else {
        Seq::empty()
    };
    if (drawing || buttons.pressed) && buttons.down {
        fresh.push(Stroke { stamp: tip, connected: true })
    } else {
        fresh
    }
}

/// Whether the brush is drawing after a frame: a press starts it, a
/// release stops it, and the release has the last word.
pub open spec fn drawing_after(drawing: bool, buttons: MouseButtons) -> bool {
    (drawing || buttons.pressed) && !buttons.released
}

/// The last stamp's `connected` flag after `added` was appended, given what
/// it was before.
pub open spec fn last_flag<T>(before: bool, added: Seq<Stroke<T>>) -> bool {
    if added.len() == 0 {
        before
    } else {
        added.last().connected
    }
}

/// The brush.
pub struct Brush<T> {
    /// What the brush would stamp right now.
    pub tip: T,
    /// Whether a line is being drawn.
    pub drawing: bool,
}

impl<T: Copy> Brush<T> {
    /// A brush that is not drawing.
    pub fn new(tip: T) -> (brush: Brush<T>)
        ensures
            brush.tip == tip,
            !brush.drawing,
    {
        Brush { tip, drawing: false }
    }

    /// Handles one frame: takes over `tip`, stamps the canvas as the mouse
    /// button says, and starts or stops drawing.
    pub fn update(&mut self, screen: &mut Screen<T>, tip: T, buttons: &MouseButtons)
        ensures
            final(self).tip == tip,
            final(self).drawing == drawing_after(old(self).drawing, *buttons),
            final(screen).history@ == old(screen).history@ + stamped(
                old(self).drawing,
                tip,
                *buttons,
            ),
            final(screen).last_was_connected == last_flag(
                old(screen).last_was_connected,
                stamped(old(self).drawing, tip, *buttons),
            ),
    {
        self.tip = tip;
        if buttons.pressed {
            self.drawing = true;
            screen.add_stroke(tip, false);
        }
        if self.drawing && buttons.down {
            screen.add_stroke(tip, true);
        }
        if buttons.released {
            self.drawing = false;
        }
        assert(screen.history@ =~= old(screen).history@ + stamped(old(self).drawing, tip, *buttons));
    }
}

/// The canvas and its brush.
pub struct Controller<T> {
    pub brush: Brush<T>,
    pub screen: Screen<T>,
}

impl<T: Copy> Controller<T> {
    /// A blank canvas and a brush that is not drawing.
    pub fn new(tip: T) -> (c: Controller<T>)
        ensures
            c.brush.tip == tip,
            !c.brush.drawing,
            c.screen.history@ == Seq::<Stroke<T>>::empty(),
            !c.screen.last_was_connected,
    {
        Controller { brush: Brush::new(tip), screen: Screen::new() }
    }

    /// Handles one frame.
    ///
    /// The brush is consulted only while the button is down, so a release,
    /// which the host reports once the button is up, never reaches it.
    /// Then, if `clear` is set, the canvas is wiped, this frame's stamps
    /// included.
    pub fn update(&mut self, tip: T, buttons: &MouseButtons, clear: bool)
        ensures
            !buttons.down ==> final(self).brush == old(self).brush,
            buttons.down ==> final(self).brush.tip == tip && final(self).brush.drawing
                == drawing_after(old(self).brush.drawing, *buttons),
            clear ==> final(self).screen.history@ == Seq::<Stroke<T>>::empty()
                && !final(self).screen.last_was_connected,
            !clear && !buttons.down ==> final(self).screen.history@ == old(self).screen.history@
                && final(self).screen.last_was_connected == old(self).screen.last_was_connected,
            !clear && buttons.down ==> final(self).screen.history@ == old(self).screen.history@
                + stamped(old(self).brush.drawing, tip, *buttons)
                && final(self).screen.last_was_connected == last_flag(
                old(self).screen.last_was_connected,
                stamped(old(self).brush.drawing, tip, *buttons),
            ),
    {
        if buttons.down {
            self.brush.update(&mut self.screen, tip, buttons);
        }
        if clear {
            self.screen.clear();
        }
    }

    /// Stamp `index` and whether it is to be joined to the one before it.
    pub fn stroke(&self, index: usize) -> (out: (&Stroke<T>, bool))
        requires
            index < self.screen.history@.len(),
        ensures
            *out.0 == self.screen.history@[index as int],
            out.1 == joined(self.screen.history@, index as int),
    {
        (&self.screen.history[index], self.screen.joins_previous(index))
    }
}

} // verus!
