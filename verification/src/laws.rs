//! What holds of every frame, proved from the definitions of the game.

use vstd::prelude::*;
use crate::body::Paddle;
use crate::field::{CENTER_X, PADDLE_FLOOR, SCREEN_HEIGHT, SCREEN_WIDTH};
use crate::game::Pong;
use crate::keys::Keys;

verus! {

/// A paddle that the clamp does not stop moves by exactly what its keys say:
/// up by its speed when only "up" is held, down by its speed when only "down"
/// is held, and not at all when both or neither are held.
pub proof fn lemma_free_paddle_follows_keys(paddle: Paddle, up: bool, down: bool)
    requires
        0 <= paddle.position.y + paddle.shift(up, down) <= PADDLE_FLOOR,
    ensures
        paddle.steered(up, down).position.y == paddle.position.y + paddle.shift(up, down),
        up && !down ==> paddle.steered(up, down).position.y == paddle.position.y - paddle.speed,
        down && !up ==> paddle.steered(up, down).position.y == paddle.position.y + paddle.speed,
        up == down ==> paddle.steered(up, down).position.y == paddle.position.y,
        paddle.steered(up, down).position.x == paddle.position.x,
        paddle.steered(up, down).size == paddle.size,
        paddle.steered(up, down).speed == paddle.speed,
{
}

/// In a frame in which the clamp stops neither paddle, each paddle moves by
/// exactly what its own keys say: up by its speed where one of its two "up"
/// keys is held and none of its "down" keys, down by its speed the other way
/// round, and not at all where both directions or neither are asked for.
pub proof fn lemma_free_paddles_follow_keys(game: Pong, keys: Keys, row: i32)
    requires
        0 <= game.paddle_left.position.y + game.paddle_left.shift(
            keys.steers_left_up(),
            keys.steers_left_down(),
        ) <= PADDLE_FLOOR,
        0 <= game.paddle_right.position.y + game.paddle_right.shift(
            keys.steers_right_up(),
            keys.steers_right_down(),
        ) <= PADDLE_FLOOR,
    ensures
        (keys.w || keys.d) && !(keys.s || keys.a) ==> game.next(keys, row).paddle_left.position.y
            == game.paddle_left.position.y - game.paddle_left.speed,
        (keys.s || keys.a) && !(keys.w || keys.d) ==> game.next(keys, row).paddle_left.position.y
            == game.paddle_left.position.y + game.paddle_left.speed,
        (keys.w || keys.d) == (keys.s || keys.a) ==> game.next(keys, row).paddle_left.position.y
            == game.paddle_left.position.y,
        (keys.up || keys.right) && !(keys.down || keys.left) ==> game.next(
            keys,
            row,
        ).paddle_right.position.y == game.paddle_right.position.y - game.paddle_right.speed,
        (keys.down || keys.left) && !(keys.up || keys.right) ==> game.next(
            keys,
            row,
        ).paddle_right.position.y == game.paddle_right.position.y + game.paddle_right.speed,
        (keys.up || keys.right) == (keys.down || keys.left) ==> game.next(
            keys,
            row,
        ).paddle_right.position.y == game.paddle_right.position.y,
        game.next(keys, row).paddle_left.position.x == game.paddle_left.position.x,
        game.next(keys, row).paddle_right.position.x == game.paddle_right.position.x,
{
}

/// After a frame both paddles stand between the top of the field and
/// `PADDLE_FLOOR`, wherever they stood before and whatever keys are held.
pub proof fn lemma_paddles_stay_on_field(game: Pong, keys: Keys, row: i32)
    ensures
        0 <= game.next(keys, row).paddle_left.position.y <= PADDLE_FLOOR,
        0 <= game.next(keys, row).paddle_right.position.y <= PADDLE_FLOOR,
        PADDLE_FLOOR == SCREEN_HEIGHT - 100,
        PADDLE_FLOOR == 620,
{
}

/// The ball travels by exactly its velocity, before a paddle or an edge has
/// its say; and in a frame without a point that is where the frame leaves it.
pub proof fn lemma_ball_travels_by_velocity(game: Pong, keys: Keys, row: i32)
    requires
        game.ball.can_travel(),
    ensures
        game.moved(keys).ball.position.x == game.ball.position.x + game.ball.velocity.x,
        game.moved(keys).ball.position.y == game.ball.position.y + game.ball.velocity.y,
        game.moved(keys).ball.velocity == game.ball.velocity,
        game.moved(keys).deflected().ball.position == game.moved(keys).ball.position,
        !game.scores_next(keys) ==> game.next(keys, row).ball.position == game.moved(
            keys,
        ).ball.position,
{
}

/// A ball at or beyond the right edge gives the left player one point, and
/// comes back on the centre column in the row given, heading the other way.
pub proof fn lemma_right_edge_scores_left(game: Pong, row: i32)
    requires
        game.can_wall(),
        game.ball.position.x >= SCREEN_WIDTH,
    ensures
        game.walled(row).score.0 == game.score.0 + 1,
        game.walled(row).score.1 == game.score.1,
        game.walled(row).ball.position.x == CENTER_X,
        game.walled(row).ball.position.y == row,
        game.walled(row).ball.velocity.x == -game.ball.velocity.x,
{
}

/// A ball at or beyond the left edge gives the right player one point, and
/// comes back on the centre column in the row given, heading the other way.
pub proof fn lemma_left_edge_scores_right(game: Pong, row: i32)
    requires
        game.can_wall(),
        game.ball.position.x <= 0,
    ensures
        game.walled(row).score.1 == game.score.1 + 1,
        game.walled(row).score.0 == game.score.0,
        game.walled(row).ball.position.x == CENTER_X,
        game.walled(row).ball.position.y == row,
        game.walled(row).ball.velocity.x == -game.ball.velocity.x,
{
}

/// A ball at or beyond the top or the bottom edge turns back vertically, and
/// one that is not stays on its course. Unless a point is scored at the same
/// time, its horizontal velocity and its position stay as they are.
pub proof fn lemma_top_and_bottom_reflect(game: Pong, row: i32)
    requires
        game.can_wall(),
    ensures
        game.ball.position.y <= 0 || game.ball.position.y >= SCREEN_HEIGHT ==> game.walled(
            row,
        ).ball.velocity.y == -game.ball.velocity.y,
        0 < game.ball.position.y < SCREEN_HEIGHT ==> game.walled(row).ball.velocity.y
            == game.ball.velocity.y,
        0 < game.ball.position.x < SCREEN_WIDTH ==> game.walled(row).ball.velocity.x
            == game.ball.velocity.x,
        0 < game.ball.position.x < SCREEN_WIDTH ==> game.walled(row).ball.position
            == game.ball.position,
        0 < game.ball.position.x < SCREEN_WIDTH ==> game.walled(row).score == game.score,
{
}

/// A frame with no key held, both paddles on the field, and the ball ending
/// clear of both paddles and of all four edges changes the position of the
/// ball by its velocity and nothing else.
pub proof fn lemma_quiet_frame_moves_only_ball(game: Pong, keys: Keys, row: i32)
    requires
        keys.idle(),
        game.ball.can_travel(),
        0 <= game.paddle_left.position.y <= PADDLE_FLOOR,
        0 <= game.paddle_right.position.y <= PADDLE_FLOOR,
        !game.ball.travelled().overlaps(game.paddle_left),
        !game.ball.travelled().overlaps(game.paddle_right),
        0 < game.ball.position.x + game.ball.velocity.x < SCREEN_WIDTH,
        0 < game.ball.position.y + game.ball.velocity.y < SCREEN_HEIGHT,
    ensures
        game.can_step(keys),
        game.next(keys, row) == (Pong { ball: game.ball.travelled(), ..game }),
        game.next(keys, row).ball.velocity == game.ball.velocity,
        game.next(keys, row).ball.radius == game.ball.radius,
        game.next(keys, row).ball.position.x == game.ball.position.x + game.ball.velocity.x,
        game.next(keys, row).ball.position.y == game.ball.position.y + game.ball.velocity.y,
{
    assert(game.paddle_left.steered(false, false) == game.paddle_left);
    assert(game.paddle_right.steered(false, false) == game.paddle_right);
}

/// Play never runs out of numbers: from a state in which the ball is in
/// play, a frame can be taken as long as neither score has reached the
/// largest number, and it leaves the ball in play again, in whichever row of
/// the field the ball comes back after a point.
pub proof fn lemma_play_goes_on(game: Pong, keys: Keys, row: i32)
    requires
        game.in_play(),
        0 <= row <= SCREEN_HEIGHT,
    ensures
        game.score.0 < i32::MAX && game.score.1 < i32::MAX ==> game.can_step(keys),
        game.ball.can_travel(),
        game.next(keys, row).in_play(),
        Pong::opening().in_play(),
{
}

} // verus!
