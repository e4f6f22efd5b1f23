//! The ball: it drifts by its velocity once per tick and turns round when
//! its top or bottom edge reaches a wall.

use vstd::prelude::*;
use crate::geometry::{saturate, saturating_sum, Color, Point, Vector};
use crate::pong::constants::{BALL_RADIUS, BALL_SPEED, BALL_START_X, BALL_START_Y, WINDOW_HEIGHT};
use crate::shapes::Circle;

verus! {

/// What a ball is, as plain integers.
pub struct BallModel {
    pub x: int,
    pub y: int,
    pub vx: int,
    pub vy: int,
    pub radius: int,
    pub color: Color,
}

impl BallModel {
    /// The ball every game and every reset begins with.
    pub open spec fn start() -> BallModel {
        BallModel {
            x: BALL_START_X as int,
            y: BALL_START_Y as int,
            vx: BALL_SPEED as int,
            vy: BALL_SPEED as int,
            radius: BALL_RADIUS as int,
            color: Color { r: 255, g: 255, b: 255 },
        }
    }

    /// Whether the top edge is at or above the top wall, or the bottom edge
    /// at or below the bottom wall.
    pub open spec fn touches_wall(self) -> bool {
        self.y - self.radius <= 0 || self.y + self.radius >= WINDOW_HEIGHT as int
    }

    /// The ball moved by its velocity, before any wall is considered.
    /// A horizontal coordinate that would leave the `i32` range stays at
    /// the end of it.
    pub open spec fn drifted(self) -> BallModel {
        BallModel { x: saturate(self.x + self.vx), y: self.y + self.vy, ..self }
    }

    /// The ball after one tick: drifted, and with the vertical velocity
    /// negated if the new position touches a wall.
    pub open spec fn advanced(self) -> BallModel {
        let moved = self.drifted();
        if moved.touches_wall() {
            BallModel { vy: -moved.vy, ..moved }
        } else {
            moved
        }
    }

    /// The same ball with another horizontal velocity.
    pub open spec fn with_velocity_x(self, vx: int) -> BallModel {
        BallModel { vx, ..self }
    }

    /// What holds of every ball that play can produce: the radius and the
    /// vertical speed never change, the centre overshoots a wall by less
    /// than one step, and a ball at a wall is already heading away from it.
    pub open spec fn valid(self) -> bool {
        &&& self.radius == BALL_RADIUS as int
        &&& (i32::MIN as int) <= self.x <= (i32::MAX as int)
        &&& (i32::MIN as int) <= self.vx <= (i32::MAX as int)
        &&& (self.vy == BALL_SPEED as int || self.vy == -(BALL_SPEED as int))
        &&& self.radius - (BALL_SPEED as int) < self.y
        &&& self.y < WINDOW_HEIGHT as int - self.radius + BALL_SPEED as int
        &&& (self.y - self.radius <= 0 ==> self.vy > 0)
        &&& (self.y + self.radius >= WINDOW_HEIGHT as int ==> self.vy < 0)
    }
}

/// The ball on the playfield.
pub struct Ball {
    position: Point,
    velocity: Vector,
    radius: i32,
    color: Color,
}

impl View for Ball {
    type V = BallModel;

    closed spec fn view(&self) -> BallModel {
        BallModel {
            x: self.position.x as int,
            y: self.position.y as int,
            vx: self.velocity.x as int,
            vy: self.velocity.y as int,
            radius: self.radius as int,
            color: self.color,
        }
    }
}

impl Ball {
    #[verifier::type_invariant]
    spec fn well_formed(self) -> bool {
        self@.valid()
    }

    /// A ball at the start position, heading down and to the right.
    pub fn new() -> (ball: Ball)
        ensures
            ball@ == BallModel::start(),
            ball@.valid(),
    {
        Ball {
            position: Point { x: BALL_START_X, y: BALL_START_Y },
            velocity: Vector { x: BALL_SPEED, y: BALL_SPEED },
            radius: BALL_RADIUS,
            color: Color::white(),
        }
    }

    /// Advances the ball by one tick.
    ///
    /// The position changes by the velocity. If the new position has the top
    /// or bottom edge at or beyond a wall, the vertical velocity changes sign,
    /// once, and keeps its size. Nothing here looks at the left and right
    /// ends of the playfield.
    pub fn update(&mut self)
        ensures
            final(self)@ == old(self)@.advanced(),
            final(self)@.valid(),
            final(self)@.vy == (if old(self)@.drifted().touches_wall() {
                -old(self)@.vy
            } else {
                old(self)@.vy
            }),
    {
        proof {
            use_type_invariant(&*self);
        }
        let x: i32 = saturating_sum(self.position.x, self.velocity.x);
        let y: i32 = self.position.y + self.velocity.y;
        let mut vy: i32 = self.velocity.y;
        if y - self.radius <= 0 || y + self.radius >= WINDOW_HEIGHT {
            vy = -vy;
        }
        *self = Ball {
            position: Point { x, y },
            velocity: Vector { x: self.velocity.x, y: vy },
            radius: self.radius,
            color: self.color,
        };
    }

    /// Where the centre of the ball is.
    pub fn get_position(&self) -> (p: Point)
        ensures
            p.x as int == self@.x,
            p.y as int == self@.y,
            self@.valid(),
    {
        proof {
            use_type_invariant(self);
        }
        self.position
    }

    /// How far the ball moves per tick along each axis.
    pub fn get_velocity(&self) -> (v: Vector)
        ensures
            v.x as int == self@.vx,
            v.y as int == self@.vy,
            self@.valid(),
    {
        proof {
            use_type_invariant(self);
        }
        self.velocity
    }

    /// The radius of the ball.
    pub fn get_radius(&self) -> (r: i32)
        ensures
            r as int == self@.radius,
            r == BALL_RADIUS,
    {
        proof {
            use_type_invariant(self);
        }
        self.radius
    }

    /// The colour the ball is painted in.
    pub fn get_color(&self) -> (c: Color)
        ensures
            c == self@.color,
    {
        self.color
    }

    /// The circle to paint for the ball: its centre, radius and colour.
    pub fn draw(&self) -> (circle: Circle)
        ensures
            circle.center.x as int == self@.x,
            circle.center.y as int == self@.y,
            circle.radius as int == self@.radius,
            circle.color == self@.color,
    {
        Circle::new(self.position, self.radius, self.color)
    }

    /// Replaces the horizontal velocity and leaves everything else alone.
    pub fn set_velocity_x(&mut self, x: i32)
        ensures
            final(self)@ == old(self)@.with_velocity_x(x as int),
            final(self)@.valid(),
    {
        proof {
            use_type_invariant(&*self);
        }
        *self = Ball {
            position: self.position,
            velocity: Vector { x, y: self.velocity.y },
            radius: self.radius,
            color: self.color,
        };
    }
}

/// A wall turns the ball round once: the tick that follows a reflection
/// does not reflect again, and a reflection changes the sign of the
/// vertical velocity and not its size.
pub proof fn lemma_wall_turns_ball_once(ball: BallModel)
    requires
        ball.valid(),
    ensures
        ball.advanced().valid(),
        ball.drifted().touches_wall() ==> ball.advanced().vy == -ball.vy,
        !ball.drifted().touches_wall() ==> ball.advanced().vy == ball.vy,
        ball.drifted().touches_wall() ==> !ball.advanced().drifted().touches_wall(),
        ball.drifted().touches_wall() ==> ball.advanced().advanced().vy == -ball.vy,
{
}

/// A ball whose bottom edge is at or below the bottom wall is heading up,
/// and the next tick carries it up by one step without turning it.
pub proof fn lemma_ball_leaves_bottom_wall(ball: BallModel)
    requires
        ball.valid(),
        ball.y + ball.radius >= WINDOW_HEIGHT,
    ensures
        ball.vy == -BALL_SPEED,
        ball.advanced().y == ball.y - BALL_SPEED,
        ball.advanced().vy == -BALL_SPEED,
{
}

/// A ball whose top edge is at or above the top wall is heading down, and
/// the next tick carries it down by one step without turning it.
pub proof fn lemma_ball_leaves_top_wall(ball: BallModel)
    requires
        ball.valid(),
        ball.y - ball.radius <= 0,
    ensures
        ball.vy == BALL_SPEED,
        ball.advanced().y == ball.y + BALL_SPEED,
        ball.advanced().vy == BALL_SPEED,
{
}

} // verus!
