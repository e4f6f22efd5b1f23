//! The board: a divider down the middle of the playfield. It is there to be
//! looked at and takes no part in the game.

use vstd::prelude::*;
use crate::geometry::{Color, Point};
use crate::pong::constants::{MID_LINE_LEFT, MID_LINE_RIGHT, WINDOW_HEIGHT};
use crate::pong::input::FrameInput;
use crate::shapes::{Rectangle, RectangleModel};

verus! {

/// The centre divider.
pub struct Board {
    rect: Rectangle,
}

/// The divider that every board shows: ten pixels wide, centred, from the
/// top wall to the bottom wall.
pub open spec fn divider() -> RectangleModel {
    RectangleModel {
        left: MID_LINE_LEFT as int,
        top: 0,
        width: MID_LINE_RIGHT as int - MID_LINE_LEFT as int,
        height: WINDOW_HEIGHT as int,
        color: Color { r: 255, g: 255, b: 255 },
    }
}

impl Board {
    #[verifier::type_invariant]
    spec fn well_formed(self) -> bool {
        self.rect@ == divider()
    }

    /// The board.
    pub fn new() -> (board: Board)
        ensures
            board.shape() == divider(),
    {
        Board {
            rect: Rectangle::new(
                Point { x: MID_LINE_LEFT, y: 0 },
                Point { x: MID_LINE_RIGHT, y: WINDOW_HEIGHT },
                Color::white(),
            ),
        }
    }

    /// The rectangle this board shows.
    pub closed spec fn shape(&self) -> RectangleModel {
        self.rect@
    }

    /// The rectangle to paint for the board: always the divider.
    pub fn draw(&self) -> (rect: Rectangle)
        ensures
            rect@ == divider(),
            rect@ == self.shape(),
    {
        proof {
            use_type_invariant(self);
        }
        self.rect
    }

    /// A tick changes nothing about the board.
    pub fn update(&mut self, input: &FrameInput)
        ensures
            final(self).shape() == old(self).shape(),
    {
    }
}

} // verus!
