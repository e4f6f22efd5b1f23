//! A paddle: a bar at a fixed `x` that its player slides up and down, never
//! past the top or the bottom of the playfield.

use vstd::prelude::*;
use vstd::pervasive::unreached;
use crate::geometry::{clamp, Color, Point};
use crate::pong::constants::{
    PADDLE1_X, PADDLE2_X, PADDLE_HEIGHT, PADDLE_MAX_Y, PADDLE_SPEED, PADDLE_START_Y, PADDLE_WIDTH,
};
use crate::pong::input::FrameInput;
use crate::shapes::{Rectangle, RectangleModel};

verus! {

/// What a paddle is, as plain integers: its top-left corner and the side it
/// plays on (1 is the left, 2 the right).
pub struct PaddleModel {
    pub x: int,
    pub y: int,
    pub id: int,
}

/// Whether `id` names one of the two sides.
pub open spec fn is_side(id: int) -> bool {
    id == 1 || id == 2
}

/// The top edge of a paddle at `y` after it was asked to move by `delta`.
pub open spec fn moved_y(y: int, delta: int) -> int {
    clamp(y + delta, 0, PADDLE_MAX_Y as int)
}

/// The top edge of a paddle at `y` after one tick with the given keys held:
/// first the step up, if asked for, then the step down, each one clamped.
pub open spec fn steered_y(y: int, up: bool, down: bool) -> int {
    let after_up = if up {
        moved_y(y, -(PADDLE_SPEED as int))
    } else {
        y
    };
    if down {
        moved_y(after_up, PADDLE_SPEED as int)
    } else {
        after_up
    }
}

impl PaddleModel {
    /// The paddle of side `id` as the game starts.
    pub open spec fn start(id: int) -> PaddleModel {
        PaddleModel {
            x: if id == 1 {
                PADDLE1_X as int
            } else {
                PADDLE2_X as int
            },
            y: PADDLE_START_Y as int,
            id,
        }
    }

    /// Whether the "up" key of this paddle is held in `input`.
    pub open spec fn wants_up(self, input: FrameInput) -> bool {
        if self.id == 1 {
            input.w
        } else {
            input.arrow_up
        }
    }

    /// Whether the "down" key of this paddle is held in `input`.
    pub open spec fn wants_down(self, input: FrameInput) -> bool {
        if self.id == 1 {
            input.s
        } else {
            input.arrow_down
        }
    }

    /// The paddle after one tick with `input`.
    pub open spec fn steered(self, input: FrameInput) -> PaddleModel {
        PaddleModel {
            y: steered_y(self.y, self.wants_up(input), self.wants_down(input)),
            ..self
        }
    }

    /// The paddle after `ticks` ticks with the same `input` in each.
    pub open spec fn steered_for(self, input: FrameInput, ticks: nat) -> PaddleModel
        decreases ticks,
    {
        if ticks == 0 {
            self
        } else {
            self.steered_for(input, (ticks - 1) as nat).steered(input)
        }
    }

    /// What holds of every paddle: it plays on one of the two sides, stands
    /// at that side's `x`, and lies wholly on the playfield.
    pub open spec fn valid(self) -> bool {
        &&& is_side(self.id)
        &&& self.x == Self::start(self.id).x
        &&& 0 <= self.y <= PADDLE_MAX_Y as int
    }
}

/// One of the two paddles.
pub struct Paddle {
    position: Point,
    id: i32,
}

impl View for Paddle {
    type V = PaddleModel;

    closed spec fn view(&self) -> PaddleModel {
        PaddleModel { x: self.position.x as int, y: self.position.y as int, id: self.id as int }
    }
}

impl Paddle {
    #[verifier::type_invariant]
    spec fn well_formed(self) -> bool {
        self@.valid()
    }

    /// The paddle of side `id` at its start position.
    ///
    /// Only 1 and 2 name a side. Any other `id` is a mistake of the caller
    /// and is ruled out here; `try_new` is there for an `id` of unknown
    /// origin.
    pub fn new(id: i32) -> (paddle: Paddle)
        requires
            is_side(id as int),
        ensures
            paddle@ == PaddleModel::start(id as int),
            paddle@.valid(),
    {
        let x: i32 = match id {
            1 => PADDLE1_X,
            2 => PADDLE2_X,
            _ => unreached(),
        };
        Paddle { position: Point { x, y: PADDLE_START_Y }, id }
    }

    /// The paddle of side `id`, or `None` if `id` names no side.
    pub fn try_new(id: i32) -> (made: Option<Paddle>)
        ensures
            made is Some <==> is_side(id as int),
            made matches Some(p) ==> p@ == PaddleModel::start(id as int) && p@.valid(),
    {
        if id == 1 || id == 2 {
            Some(Paddle::new(id))
        } else {
            None
        }
    }

    /// Moves the paddle for one tick according to the keys held.
    ///
    /// Each held key of this paddle shifts it by `PADDLE_SPEED`, up first,
    /// then down, and after each shift the paddle is pushed back onto the
    /// playfield. The keys of the other paddle are not looked at.
    pub fn update(&mut self, input: &FrameInput)
        ensures
            final(self)@ == old(self)@.steered(*input),
            final(self)@.valid(),
            0 <= final(self)@.y <= PADDLE_MAX_Y,
    {
        proof {
            use_type_invariant(&*self);
        }
        let (up, down) = if self.id == 1 {
            (input.w, input.s)
        } else {
            (input.arrow_up, input.arrow_down)
        };
        if up {
            self.move_paddle(-PADDLE_SPEED);
        }
        if down {
            self.move_paddle(PADDLE_SPEED);
        }
    }

    /// Shifts the paddle by `delta_y` and keeps it on the playfield.
    fn move_paddle(&mut self, delta_y: i32)
        ensures
            final(self)@ == (PaddleModel {
                y: moved_y(old(self)@.y, delta_y as int),
                ..old(self)@
            }),
    {
        proof {
            use_type_invariant(&*self);
        }
        let wide: i64 = self.position.y as i64 + delta_y as i64;
        let y: i32 = if wide < 0 {
            0
        } else if wide > PADDLE_MAX_Y as i64 {
            PADDLE_MAX_Y
        } else {
            wide as i32
        };
        *self = Paddle { position: Point { x: self.position.x, y }, id: self.id };
    }

    /// The top-left corner of the paddle.
    pub fn get_position(&self) -> (p: Point)
        ensures
            p.x as int == self@.x,
            p.y as int == self@.y,
            0 <= p.y <= PADDLE_MAX_Y,
            self@.valid(),
    {
        proof {
            use_type_invariant(self);
        }
        self.position
    }

    /// The rectangle to paint for the paddle: from its top-left corner,
    /// `PADDLE_WIDTH` wide and `PADDLE_HEIGHT` high, in white.
    pub fn draw(&self) -> (rect: Rectangle)
        ensures
            rect@ == (RectangleModel {
                left: self@.x,
                top: self@.y,
                width: PADDLE_WIDTH as int,
                height: PADDLE_HEIGHT as int,
                color: Color { r: 255, g: 255, b: 255 },
            }),
    {
        proof {
            use_type_invariant(self);
        }
        Rectangle::new(
            self.position,
            Point { x: self.position.x + PADDLE_WIDTH, y: self.position.y + PADDLE_HEIGHT },
            Color::white(),
        )
    }

    /// The side this paddle plays on.
    pub fn get_id(&self) -> (id: i32)
        ensures
            id as int == self@.id,
            is_side(id as int),
            self@.valid(),
    {
        proof {
            use_type_invariant(self);
        }
        self.id
    }
}

/// A paddle on the playfield stays on it, whatever keys are held.
pub proof fn lemma_steered_stays_on_field(paddle: PaddleModel, input: FrameInput)
    requires
        paddle.valid(),
    ensures
        paddle.steered(input).valid(),
        0 <= paddle.steered(input).y <= PADDLE_MAX_Y,
{
}

/// A paddle whose "down" key alone is held for `ticks` ticks moves down by
/// `PADDLE_SPEED` per tick until it reaches the bottom, and stays there.
pub proof fn lemma_held_down(paddle: PaddleModel, input: FrameInput, ticks: nat)
    requires
        paddle.valid(),
        paddle.wants_down(input),
        !paddle.wants_up(input),
    ensures
        paddle.steered_for(input, ticks).y == (if paddle.y + PADDLE_SPEED * ticks
            <= PADDLE_MAX_Y {
            paddle.y + PADDLE_SPEED * ticks
        } else {
            PADDLE_MAX_Y as int
        }),
        paddle.steered_for(input, ticks).x == paddle.x,
        paddle.steered_for(input, ticks).id == paddle.id,
    decreases ticks,
{
    if ticks > 0 {
        lemma_held_down(paddle, input, (ticks - 1) as nat);
    }
}

/// A paddle whose "up" key alone is held for `ticks` ticks moves up by
/// `PADDLE_SPEED` per tick until it reaches the top, and stays there.
pub proof fn lemma_held_up(paddle: PaddleModel, input: FrameInput, ticks: nat)
    requires
        paddle.valid(),
        paddle.wants_up(input),
        !paddle.wants_down(input),
    ensures
        paddle.steered_for(input, ticks).y == (if paddle.y - PADDLE_SPEED * ticks >= 0 {
            paddle.y - PADDLE_SPEED * ticks
        } else {
            0
        }),
        paddle.steered_for(input, ticks).x == paddle.x,
        paddle.steered_for(input, ticks).id == paddle.id,
    decreases ticks,
{
    if ticks > 0 {
        lemma_held_up(paddle, input, (ticks - 1) as nat);
    }
}

} // verus!
