//! Playfield dimensions and speeds, in whole pixels and pixels per tick.

use vstd::prelude::*;

verus! {

/// Width of the playfield.
pub const WINDOW_WIDTH: i32 = 600;

/// Height of the playfield.
pub const WINDOW_HEIGHT: i32 = 600;

/// Width of a paddle.
pub const PADDLE_WIDTH: i32 = 10;

/// Height of a paddle.
pub const PADDLE_HEIGHT: i32 = 100;

/// Distance a paddle travels in one tick while a key is held.
pub const PADDLE_SPEED: i32 = 5;

/// Radius of the ball.
pub const BALL_RADIUS: i32 = 10;

/// Distance the ball travels along each axis in one tick.
pub const BALL_SPEED: i32 = 3;

/// Where a fresh ball is placed: five pixels left of the centre.
pub const BALL_START_X: i32 = 295;

/// Where a fresh ball is placed: five pixels above the centre.
pub const BALL_START_Y: i32 = 295;

/// Left edge of the left paddle.
pub const PADDLE1_X: i32 = 20;

/// Left edge of the right paddle.
pub const PADDLE2_X: i32 = WINDOW_WIDTH - 20;

/// Top edge of both paddles when the game starts: the paddles are centred.
pub const PADDLE_START_Y: i32 = 250;

/// Lowest position the top edge of a paddle can take.
pub const PADDLE_MAX_Y: i32 = WINDOW_HEIGHT - PADDLE_HEIGHT;

/// Left edge of the centre divider, five pixels left of the centre.
pub const MID_LINE_LEFT: i32 = 295;

/// Right edge of the centre divider, five pixels right of the centre.
pub const MID_LINE_RIGHT: i32 = 305;

/// The layout is centred: the ball starts five pixels up and left of the
/// middle of the playfield, the divider is ten pixels wide about the
/// vertical middle line, both paddles start with their middle on the
/// horizontal middle line and stand twenty pixels from their end of the
/// playfield, and a paddle at its lowest position touches the bottom wall.
pub proof fn lemma_layout_is_centred()
    ensures
        BALL_START_X == WINDOW_WIDTH / 2 - 5,
        BALL_START_Y == WINDOW_HEIGHT / 2 - 5,
        MID_LINE_LEFT == WINDOW_WIDTH / 2 - 5,
        MID_LINE_RIGHT == WINDOW_WIDTH / 2 + 5,
        PADDLE_START_Y + PADDLE_HEIGHT / 2 == WINDOW_HEIGHT / 2,
        PADDLE1_X == 20,
        PADDLE2_X == WINDOW_WIDTH - 20,
        PADDLE_MAX_Y + PADDLE_HEIGHT == WINDOW_HEIGHT,
{
}

} // verus!
