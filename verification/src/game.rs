//! The game: one ball, two paddles and the score, and what one frame does to
//! them.

use vstd::prelude::*;
use crate::body::{Ball, Paddle, Vec2};
use crate::chance::random_between;
use crate::field::{CENTER_X, CENTER_Y, PADDLE_FLOOR, SCREEN_HEIGHT, SCREEN_WIDTH};
use crate::keys::Keys;

verus! {

/// The whole state of a game. `score.0` belongs to the left player and
/// `score.1` to the right one.
#[derive(Clone, Copy, Debug, PartialEq, Eq)]
pub struct Pong {
    pub ball: Ball,
    pub paddle_left: Paddle,
    pub paddle_right: Paddle,
    pub score: (i32, i32),
}

impl Pong {
    /// The state in which every game starts: the ball in the middle of the
    /// field, heading down and to the right, both paddles at mid height near
    /// their edges, and no points scored.
    pub open spec fn opening() -> Pong {
        Pong {
            ball: Ball {
                position: Vec2 { x: 640, y: 360 },
                velocity: Vec2 { x: 8, y: 8 },
                radius: 15,
            },
            paddle_left: Paddle {
                position: Vec2 { x: 5, y: 360 },
                size: Vec2 { x: 20, y: 120 },
                speed: 8,
            },
            paddle_right: Paddle {
                position: Vec2 { x: 1255, y: 360 },
                size: Vec2 { x: 20, y: 120 },
                speed: 8,
            },
            score: (0, 0),
        }
    }

    /// The ball overlaps one of the two paddles.
    pub open spec fn hits_paddle(self) -> bool {
        self.ball.overlaps(self.paddle_left) || self.ball.overlaps(self.paddle_right)
    }

    /// The ball is at or beyond the top or the bottom edge.
    pub open spec fn at_top_or_bottom(self) -> bool {
        self.ball.position.y <= 0 || self.ball.position.y >= SCREEN_HEIGHT
    }

    /// The ball is at or beyond the right edge: a point for the left player.
    pub open spec fn left_scores(self) -> bool {
        self.ball.position.x >= SCREEN_WIDTH
    }

    /// The ball is at or beyond the left edge: a point for the right player.
    pub open spec fn right_scores(self) -> bool {
        self.ball.position.x <= 0
    }

    /// The state after the paddles have followed `keys` and the ball has
    /// travelled by its velocity.
    pub open spec fn moved(self, keys: Keys) -> Pong {
        Pong {
            ball: self.ball.travelled(),
            paddle_left: self.paddle_left.steered(keys.steers_left_up(), keys.steers_left_down()),
            paddle_right: self.paddle_right.steered(
                keys.steers_right_up(),
                keys.steers_right_down(),
            ),
            score: self.score,
        }
    }

    /// The state after the paddles had their say: where the ball overlaps
    /// one, it turns back horizontally.
    pub open spec fn deflected(self) -> Pong {
        if self.hits_paddle() {
            Pong {
                ball: Ball {
                    position: self.ball.position,
                    velocity: Vec2 {
                        x: (-self.ball.velocity.x) as i32,
                        y: self.ball.velocity.y,
                    },
                    radius: self.ball.radius,
                },
                paddle_left: self.paddle_left,
                paddle_right: self.paddle_right,
                score: self.score,
            }
        } else {
            self
        }
    }

    /// The vertical velocity after the top and bottom edges had their say.
    pub open spec fn reflected_vy(self) -> int {
        if self.at_top_or_bottom() {
            -self.ball.velocity.y
        } else {
            self.ball.velocity.y as int
        }
    }

    /// The state after the edges of the field had their say. At the top and
    /// the bottom the ball turns back vertically. Beyond the right or the left
    /// edge the other side's player scores, and the ball comes back into play
    /// on the centre column in row `row`, heading the other way.
    pub open spec fn walled(self, row: i32) -> Pong {
        if self.left_scores() || self.right_scores() {
            Pong {
                ball: Ball {
                    position: Vec2 { x: CENTER_X, y: row },
                    velocity: Vec2 {
                        x: (-self.ball.velocity.x) as i32,
                        y: self.reflected_vy() as i32,
                    },
                    radius: self.ball.radius,
                },
                paddle_left: self.paddle_left,
                paddle_right: self.paddle_right,
                score: if self.left_scores() {
                    ((self.score.0 + 1) as i32, self.score.1)
                } else {
                    (self.score.0, (self.score.1 + 1) as i32)
                },
            }
        } else {
            Pong {
                ball: Ball {
                    position: self.ball.position,
                    velocity: Vec2 { x: self.ball.velocity.x, y: self.reflected_vy() as i32 },
                    radius: self.ball.radius,
                },
                paddle_left: self.paddle_left,
                paddle_right: self.paddle_right,
                score: self.score,
            }
        }
    }

    /// The state one frame later, where `row` is the row in which the ball
    /// comes back into play if a point is scored in this frame.
    pub open spec fn next(self, keys: Keys, row: i32) -> Pong {
        self.moved(keys).deflected().walled(row)
    }

    /// A point is scored in the frame that starts in this state.
    pub open spec fn scores_next(self, keys: Keys) -> bool {
        self.moved(keys).deflected().left_scores() || self.moved(keys).deflected().right_scores()
    }

    /// Turning the ball back at a paddle stays within the machine's numbers.
    pub open spec fn can_deflect(self) -> bool {
        self.hits_paddle() ==> self.ball.velocity.x > i32::MIN
    }

    /// Turning the ball back at an edge, and counting the point, stays within
    /// the machine's numbers.
    pub open spec fn can_wall(self) -> bool {
        &&& self.at_top_or_bottom() ==> self.ball.velocity.y > i32::MIN
        &&& self.left_scores() ==> self.ball.velocity.x > i32::MIN && self.score.0 < i32::MAX
        &&& self.right_scores() ==> self.ball.velocity.x > i32::MIN && self.score.1 < i32::MAX
    }

    /// A whole frame stays within the machine's numbers.
    pub open spec fn can_step(self, keys: Keys) -> bool {
        &&& self.ball.can_travel()
        &&& self.moved(keys).can_deflect()
        &&& self.moved(keys).deflected().can_wall()
    }

    /// The ball is on a course that play can keep up for ever: it is between
    /// the left and the right edge, it is slow enough for its next position
    /// to be held, and where it has overshot the top or the bottom edge it
    /// is on its way back and one frame from the field.
    pub open spec fn in_play(self) -> bool {
        &&& 0 < self.ball.position.x < SCREEN_WIDTH
        &&& SCREEN_WIDTH - i32::MAX <= self.ball.velocity.x <= i32::MAX - SCREEN_WIDTH
        &&& SCREEN_HEIGHT - i32::MAX <= self.ball.velocity.y <= i32::MAX - SCREEN_HEIGHT
        &&& self.ball.position.y < 0 ==> self.ball.velocity.y > 0 && self.ball.position.y
            + self.ball.velocity.y >= 0
        &&& self.ball.position.y > SCREEN_HEIGHT ==> self.ball.velocity.y < 0
            && self.ball.position.y + self.ball.velocity.y <= SCREEN_HEIGHT
    }

    /// A new game.
    pub fn new() -> (game: Pong)
        ensures
            game == Pong::opening(),
            game.in_play(),
    {
        let ball_radius: i32 = 15;
        let ball_velocity = Vec2 { x: 8, y: 8 };
        let paddle_size = Vec2 { x: 20, y: 120 };
        let paddle_speed: i32 = 8;

        Pong {
            ball: Ball {
                position: Vec2 { x: CENTER_X, y: CENTER_Y },
                velocity: ball_velocity,
                radius: ball_radius,
            },
            paddle_left: Paddle {
                position: Vec2 { x: 5, y: CENTER_Y },
                size: paddle_size,
                speed: paddle_speed,
            },
            paddle_right: Paddle {
                position: Vec2 { x: SCREEN_WIDTH - 25, y: CENTER_Y },
                size: paddle_size,
                speed: paddle_speed,
            },
            score: (0, 0),
        }
    }

    /// Whether the square around the ball overlaps the rectangle of `paddle`.
    pub fn paddle_collision(&self, paddle: &Paddle) -> (hit: bool)
        ensures
            hit == self.ball.overlaps(*paddle),
    {
        let ball_left: i64 = self.ball.position.x as i64 - self.ball.radius as i64;
        let ball_right: i64 = self.ball.position.x as i64 + self.ball.radius as i64;
        let ball_top: i64 = self.ball.position.y as i64 - self.ball.radius as i64;
        let ball_bottom: i64 = self.ball.position.y as i64 + self.ball.radius as i64;

        let paddle_left: i64 = paddle.position.x as i64;
        let paddle_right: i64 = paddle.position.x as i64 + paddle.size.x as i64;
        let paddle_top: i64 = paddle.position.y as i64;
        let paddle_bottom: i64 = paddle.position.y as i64 + paddle.size.y as i64;

        ball_left < paddle_right && ball_right > paddle_left && ball_top < paddle_bottom
            && ball_bottom > paddle_top
    }

    /// The first part of a frame: the paddles follow `keys`, the ball travels
    /// by its velocity, and it turns back horizontally if it then overlaps a
    /// paddle.
    pub fn advance(&mut self, keys: Keys)
        requires
            old(self).ball.can_travel(),
            old(self).moved(keys).can_deflect(),
        ensures
            *final(self) == old(self).moved(keys).deflected(),
            final(self).ball.position.x == old(self).ball.position.x + old(self).ball.velocity.x,
            final(self).ball.position.y == old(self).ball.position.y + old(self).ball.velocity.y,
            0 <= final(self).paddle_left.position.y <= PADDLE_FLOOR,
            0 <= final(self).paddle_right.position.y <= PADDLE_FLOOR,
    {
        self.paddle_left.steer(keys.left_up(), keys.left_down());
        self.paddle_right.steer(keys.right_up(), keys.right_down());
        self.ball.travel();
        if self.paddle_collision(&self.paddle_left) || self.paddle_collision(&self.paddle_right) {
            self.ball.velocity.x = -self.ball.velocity.x;
        }
    }

    /// The second part of a frame, with the row given in which the ball comes
    /// back into play after a point. Where no point is scored `row` plays no
    /// part.
    pub fn wall_collision_with(&mut self, row: i32)
        requires
            old(self).can_wall(),
        ensures
            *final(self) == old(self).walled(row),
            final(self).ball.velocity.y == old(self).reflected_vy(),
            old(self).left_scores() ==> (
                final(self).score.0 == old(self).score.0 + 1
                && final(self).score.1 == old(self).score.1
            ),
            old(self).right_scores() ==> (
                final(self).score.1 == old(self).score.1 + 1
                && final(self).score.0 == old(self).score.0
            ),
            old(self).left_scores() || old(self).right_scores() ==> (
                final(self).ball.position.x == CENTER_X
                && final(self).ball.position.y == row
                && final(self).ball.velocity.x == -old(self).ball.velocity.x
            ),
            !old(self).left_scores() && !old(self).right_scores() ==> (
                final(self).score == old(self).score
                && final(self).ball.position == old(self).ball.position
                && final(self).ball.velocity.x == old(self).ball.velocity.x
            ),
    {
        if self.ball.position.y >= SCREEN_HEIGHT || self.ball.position.y <= 0 {
            self.ball.velocity.y = -self.ball.velocity.y;
        }
        if self.ball.position.x >= SCREEN_WIDTH {
            self.score.0 += 1;
            self.ball.position.x = CENTER_X;
            self.ball.velocity.x = -self.ball.velocity.x;
            self.ball.position.y = row;
        } else if self.ball.position.x <= 0 {
            self.score.1 += 1;
            self.ball.position.x = CENTER_X;
            self.ball.velocity.x = -self.ball.velocity.x;
            self.ball.position.y = row;
        }
    }

    /// The second part of a frame. After a point the ball comes back into
    /// play in a row drawn at random from the whole height of the field; the
    /// state that results is `walled` of the row the ball ends in.
    pub fn wall_collision(&mut self)
        requires
            old(self).can_wall(),
        ensures
            *final(self) == old(self).walled(final(self).ball.position.y),
            old(self).left_scores() || old(self).right_scores() ==> (
                0 <= final(self).ball.position.y <= SCREEN_HEIGHT
            ),
    {
        let row: i32 = if self.ball.position.x >= SCREEN_WIDTH || self.ball.position.x <= 0 {
            random_between(0, SCREEN_HEIGHT)
        } else {
            self.ball.position.y
        };
        self.wall_collision_with(row);
    }

    /// Whether a whole frame with `keys` stays within the machine's numbers,
    /// which is what `update` and `update_with` ask of their callers.
    pub fn can_update(&self, keys: Keys) -> (ok: bool)
        ensures
            ok == self.can_step(keys),
    {
        let x: i64 = self.ball.position.x as i64 + self.ball.velocity.x as i64;
        let y: i64 = self.ball.position.y as i64 + self.ball.velocity.y as i64;
        if x < i32::MIN as i64 || x > i32::MAX as i64 || y < i32::MIN as i64 || y
            > i32::MAX as i64 {
            return false;
        }
        let mut probe = *self;
        probe.paddle_left.steer(keys.left_up(), keys.left_down());
        probe.paddle_right.steer(keys.right_up(), keys.right_down());
        probe.ball.travel();
        let hit = probe.paddle_collision(&probe.paddle_left) || probe.paddle_collision(
            &probe.paddle_right,
        );
        let turns_back = hit || x >= SCREEN_WIDTH as i64 || x <= 0;
        if turns_back && self.ball.velocity.x == i32::MIN {
            return false;
        }
        if (y <= 0 || y >= SCREEN_HEIGHT as i64) && self.ball.velocity.y == i32::MIN {
            return false;
        }
        if x >= SCREEN_WIDTH as i64 && self.score.0 == i32::MAX {
            return false;
        }
        if x <= 0 && self.score.1 == i32::MAX {
            return false;
        }
        true
    }

    /// One frame, with the row given in which the ball comes back into play
    /// after a point.
    pub fn update_with(&mut self, keys: Keys, row: i32)
        requires
            old(self).can_step(keys),
        ensures
            *final(self) == old(self).next(keys, row),
            0 <= final(self).paddle_left.position.y <= PADDLE_FLOOR,
            0 <= final(self).paddle_right.position.y <= PADDLE_FLOOR,
            old(self).in_play() && 0 <= row <= SCREEN_HEIGHT ==> final(self).in_play(),
    {
        self.advance(keys);
        self.wall_collision_with(row);
    }

    /// One frame. After a point the ball comes back into play in a row drawn
    /// at random from the whole height of the field; the state that results
    /// is `next` of the row the ball ends in.
    pub fn update(&mut self, keys: Keys)
        requires
            old(self).can_step(keys),
        ensures
            *final(self) == old(self).next(keys, final(self).ball.position.y),
            old(self).scores_next(keys) ==> 0 <= final(self).ball.position.y <= SCREEN_HEIGHT,
            0 <= final(self).paddle_left.position.y <= PADDLE_FLOOR,
            0 <= final(self).paddle_right.position.y <= PADDLE_FLOOR,
            old(self).in_play() ==> final(self).in_play(),
    {
        self.advance(keys);
        self.wall_collision();
    }
}

} // verus!
