//! The game itself: one ball, two paddles, and the order in which a tick
//! moves them, bounces the ball off a paddle and puts a lost ball back.

use vstd::prelude::*;
use crate::geometry::{magnitude, saturate, saturating_magnitude};
use crate::pong::ball::{Ball, BallModel};
use crate::pong::constants::{PADDLE_HEIGHT, PADDLE_MAX_Y, PADDLE_WIDTH, WINDOW_WIDTH};
use crate::pong::input::FrameInput;
use crate::pong::paddle::{Paddle, PaddleModel};

verus! {

/// Whether the centre of `ball` is level with `paddle`: no higher than its
/// top edge and no lower than its bottom edge. The radius plays no part.
pub open spec fn level_with(ball: BallModel, paddle: PaddleModel) -> bool {
    paddle.y <= ball.y <= paddle.y + PADDLE_HEIGHT as int
}

/// Whether `ball` counts as struck by `paddle` standing on the left: its
/// left edge has reached or passed the right edge of the paddle, and its
/// centre is level with the paddle.
pub open spec fn meets_left(ball: BallModel, paddle: PaddleModel) -> bool {
    ball.x - ball.radius <= paddle.x + PADDLE_WIDTH as int && level_with(ball, paddle)
}

/// Whether `ball` counts as struck by `paddle` standing on the right: its
/// right edge has reached or passed the left edge of the paddle, and its
/// centre is level with the paddle.
pub open spec fn meets_right(ball: BallModel, paddle: PaddleModel) -> bool {
    ball.x + ball.radius >= paddle.x && level_with(ball, paddle)
}

/// Whether the centre of `ball` lies left of the playfield or right of it.
pub open spec fn out_of_bounds(ball: BallModel) -> bool {
    ball.x < 0 || ball.x > WINDOW_WIDTH as int
}

/// The horizontal speed of `ball`, whatever its direction.
pub open spec fn speed_x(ball: BallModel) -> int {
    magnitude(ball.vx)
}

/// `ball` after the two paddles had their say, the left one first: struck
/// by the left paddle it heads right, struck by the right paddle it heads
/// left, and in both cases it keeps its speed.
pub open spec fn bounced(ball: BallModel, left: PaddleModel, right: PaddleModel) -> BallModel {
    let after_left = if meets_left(ball, left) {
        ball.with_velocity_x(speed_x(ball))
    } else {
        ball
    };
    if meets_right(after_left, right) {
        after_left.with_velocity_x(-speed_x(after_left))
    } else {
        after_left
    }
}

/// `ball` if it is still in play, else a fresh ball.
pub open spec fn served(ball: BallModel) -> BallModel {
    if out_of_bounds(ball) {
        BallModel::start()
    } else {
        ball
    }
}

/// A game, as plain integers.
pub struct ControllerModel {
    pub ball: BallModel,
    pub paddle1: PaddleModel,
    pub paddle2: PaddleModel,
}

impl ControllerModel {
    /// The game before its first tick.
    pub open spec fn start() -> ControllerModel {
        ControllerModel {
            ball: BallModel::start(),
            paddle1: PaddleModel::start(1),
            paddle2: PaddleModel::start(2),
        }
    }

    /// The game one tick later: both paddles steered, the ball advanced,
    /// then bounced off the paddles where they now stand, then replaced if
    /// it left the playfield.
    pub open spec fn tick(self, input: FrameInput) -> ControllerModel {
        let paddle1 = self.paddle1.steered(input);
        let paddle2 = self.paddle2.steered(input);
        ControllerModel {
            ball: served(bounced(self.ball.advanced(), paddle1, paddle2)),
            paddle1,
            paddle2,
        }
    }

    /// The game after one tick for each entry of `inputs`, in order.
    pub open spec fn after(self, inputs: Seq<FrameInput>) -> ControllerModel
        decreases inputs.len(),
    {
        if inputs.len() == 0 {
            self
        } else {
            self.after(inputs.drop_last()).tick(inputs.last())
        }
    }

    /// Whether ball and paddles are valid and the paddles stand on their
    /// own sides.
    pub open spec fn valid(self) -> bool {
        &&& self.ball.valid()
        &&& self.paddle1.valid()
        &&& self.paddle2.valid()
        &&& self.paddle1.id == 1
        &&& self.paddle2.id == 2
    }
}

/// The game: it owns the ball and both paddles.
pub struct Controller {
    pub ball: Ball,
    pub paddle1: Paddle,
    pub paddle2: Paddle,
}

impl View for Controller {
    type V = ControllerModel;

    open spec fn view(&self) -> ControllerModel {
        ControllerModel { ball: self.ball@, paddle1: self.paddle1@, paddle2: self.paddle2@ }
    }
}

/// Tells whether `ball` is struck by `paddle` standing on the left.
pub fn touches_left_paddle(ball: &Ball, paddle: &Paddle) -> (hit: bool)
    ensures
        hit == meets_left(ball@, paddle@),
{
    let at = ball.get_position();
    let radius = ball.get_radius();
    let corner = paddle.get_position();
    at.x as i64 - radius as i64 <= corner.x as i64 + PADDLE_WIDTH as i64 && at.y >= corner.y
        && at.y <= corner.y + PADDLE_HEIGHT
}

/// Tells whether `ball` is struck by `paddle` standing on the right.
pub fn touches_right_paddle(ball: &Ball, paddle: &Paddle) -> (hit: bool)
    ensures
        hit == meets_right(ball@, paddle@),
{
    let at = ball.get_position();
    let radius = ball.get_radius();
    let corner = paddle.get_position();
    at.x as i64 + radius as i64 >= corner.x as i64 && at.y >= corner.y && at.y <= corner.y
        + PADDLE_HEIGHT
}

impl Controller {
    /// A game with a fresh ball and both paddles at their start positions.
    pub fn new() -> (game: Controller)
        ensures
            game@ == ControllerModel::start(),
            game@.valid(),
    {
        Controller { ball: Ball::new(), paddle1: Paddle::new(1), paddle2: Paddle::new(2) }
    }

    /// Runs one tick.
    ///
    /// The paddles move first, the first before the second; then the ball.
    /// The ball is then tested against the first paddle as the left one and
    /// against the second as the right one, in that order, and last of all
    /// against the left and right ends of the playfield: a ball whose centre
    /// lies beyond either end is dropped and a fresh one takes its place.
    ///
    /// In a game whose paddles stand on their own sides, a moving ball that
    /// the left paddle strikes ends the tick heading right.
    pub fn update(&mut self, input: &FrameInput)
        ensures
            final(self)@ == old(self)@.tick(*input),
            old(self)@.valid() ==> final(self)@.valid(),
            0 <= final(self)@.paddle1.y <= PADDLE_MAX_Y,
            0 <= final(self)@.paddle2.y <= PADDLE_MAX_Y,
            0 <= final(self)@.ball.x <= WINDOW_WIDTH,
            out_of_bounds(old(self)@.ball.advanced()) ==> final(self)@.ball == BallModel::start(),
            old(self)@.valid() && old(self)@.ball.vx != 0 && meets_left(
                old(self)@.ball.advanced(),
                final(self)@.paddle1,
            ) ==> final(self)@.ball.vx > 0,
    {
        let speed: i32 = saturating_magnitude(self.ball.get_velocity().x);
        self.paddle1.update(input);
        self.paddle2.update(input);
        self.ball.update();
        if touches_left_paddle(&self.ball, &self.paddle1) {
            self.ball.set_velocity_x(speed);
        }
        if touches_right_paddle(&self.ball, &self.paddle2) {
            self.ball.set_velocity_x(-speed);
        }
        let x: i32 = self.ball.get_position().x;
        if x < 0 || x > WINDOW_WIDTH {
            self.ball = Ball::new();
        }
    }
}

/// A valid game stays valid however many ticks it runs and whatever keys are
/// held: the paddles stay on the playfield, the ball stays between the top
/// and bottom walls, and after each tick the ball is between the left and
/// right ends.
pub proof fn lemma_play_stays_valid(game: ControllerModel, inputs: Seq<FrameInput>)
    requires
        game.valid(),
    ensures
        game.after(inputs).valid(),
        0 <= game.after(inputs).paddle1.y <= PADDLE_MAX_Y,
        0 <= game.after(inputs).paddle2.y <= PADDLE_MAX_Y,
        inputs.len() > 0 ==> 0 <= game.after(inputs).ball.x <= WINDOW_WIDTH,
    decreases inputs.len(),
{
    if inputs.len() > 0 {
        lemma_play_stays_valid(game, inputs.drop_last());
    }
}

/// A moving ball that, once advanced, is struck by the left paddle leaves the
/// tick heading right, whichever way it was heading before.
pub proof fn lemma_left_paddle_sends_ball_right(game: ControllerModel, input: FrameInput)
    requires
        game.valid(),
        game.ball.vx != 0,
        meets_left(game.ball.advanced(), game.paddle1.steered(input)),
    ensures
        game.tick(input).ball.vx > 0,
{
}

/// A moving ball that, once advanced, is struck by the right paddle and is
/// still on the playfield leaves the tick heading left.
pub proof fn lemma_right_paddle_sends_ball_left(game: ControllerModel, input: FrameInput)
    requires
        game.valid(),
        game.ball.vx != 0,
        meets_right(game.ball.advanced(), game.paddle2.steered(input)),
        !out_of_bounds(game.ball.advanced()),
    ensures
        game.tick(input).ball.vx < 0,
{
}

/// A ball beyond the right end of the playfield is replaced by a fresh ball
/// in the next tick, provided its own movement in that tick does not carry
/// it back onto the playfield.
pub proof fn lemma_lost_ball_is_replaced(game: ControllerModel, input: FrameInput)
    requires
        game.ball.x > WINDOW_WIDTH,
        !(0 <= saturate(game.ball.x + game.ball.vx) <= WINDOW_WIDTH),
    ensures
        game.tick(input).ball == BallModel::start(),
{
}

/// A paddle strike changes the direction of the ball only: position,
/// vertical velocity and horizontal speed stay as they were.
pub proof fn lemma_bounce_keeps_speed(ball: BallModel, left: PaddleModel, right: PaddleModel)
    ensures
        bounced(ball, left, right) == ball.with_velocity_x(bounced(ball, left, right).vx),
        speed_x(bounced(ball, left, right)) == speed_x(ball),
{
}

} // verus!
