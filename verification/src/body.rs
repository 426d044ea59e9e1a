//! The things on the field: the ball and the paddles.

use vstd::prelude::*;
use crate::field::{clamp, clamped, PADDLE_FLOOR};

verus! {

/// A position or a displacement on the field, in whole pixels.
///
/// `x` grows to the right and `y` grows downwards.
#[derive(Clone, Copy, Debug, PartialEq, Eq, Structural)]
pub struct Vec2 {
    pub x: i32,
    pub y: i32,
}

/// The ball: a disc around `position` that moves by `velocity` every frame.
#[derive(Clone, Copy, Debug, PartialEq, Eq, Structural)]
pub struct Ball {
    pub position: Vec2,
    pub velocity: Vec2,
    pub radius: i32,
}

/// A paddle: a rectangle whose top-left corner is `position`, which moves
/// up and down by `speed` per frame.
#[derive(Clone, Copy, Debug, PartialEq, Eq, Structural)]
pub struct Paddle {
    pub position: Vec2,
    pub size: Vec2,
    pub speed: i32,
}

impl Ball {
    /// The square around the ball and the rectangle of `paddle` share a point
    /// of their interiors.
    pub open spec fn overlaps(self, paddle: Paddle) -> bool {
        &&& self.position.x - self.radius < paddle.position.x + paddle.size.x
        &&& self.position.x + self.radius > paddle.position.x
        &&& self.position.y - self.radius < paddle.position.y + paddle.size.y
        &&& self.position.y + self.radius > paddle.position.y
    }

    /// The ball one frame later, before anything is hit.
    pub open spec fn travelled(self) -> Ball {
        Ball {
            position: Vec2 {
                x: (self.position.x + self.velocity.x) as i32,
                y: (self.position.y + self.velocity.y) as i32,
            },
            velocity: self.velocity,
            radius: self.radius,
        }
    }

    /// The position one frame later can be held.
    pub open spec fn can_travel(self) -> bool {
        &&& i32::MIN <= self.position.x + self.velocity.x <= i32::MAX
        &&& i32::MIN <= self.position.y + self.velocity.y <= i32::MAX
    }

    /// Moves the ball by its velocity.
    pub fn travel(&mut self)
        requires
            old(self).can_travel(),
        ensures
            *final(self) == old(self).travelled(),
            final(self).position.x == old(self).position.x + old(self).velocity.x,
            final(self).position.y == old(self).position.y + old(self).velocity.y,
    {
        self.position.x = self.position.x + self.velocity.x;
        self.position.y = self.position.y + self.velocity.y;
    }
}

impl Paddle {
    /// How far the keys move the paddle in one frame, before clamping: up by
    /// `speed` if `up` is held and down by `speed` if `down` is held, both if
    /// both are.
    pub open spec fn shift(self, up: bool, down: bool) -> int {
        (if down { self.speed as int } else { 0 }) - (if up { self.speed as int } else { 0 })
    }

    /// The row of the paddle after one frame: shifted by the keys, then kept
    /// between the top of the field and `PADDLE_FLOOR`.
    pub open spec fn steered_row(self, up: bool, down: bool) -> int {
        clamped(self.position.y + self.shift(up, down), 0, PADDLE_FLOOR as int)
    }

    /// The paddle after one frame.
    pub open spec fn steered(self, up: bool, down: bool) -> Paddle {
        Paddle {
            position: Vec2 { x: self.position.x, y: self.steered_row(up, down) as i32 },
            size: self.size,
            speed: self.speed,
        }
    }

    /// Moves the paddle as the keys say and keeps it on the field.
    pub fn steer(&mut self, up: bool, down: bool)
        ensures
            *final(self) == old(self).steered(up, down),
            final(self).position.y == old(self).steered_row(up, down),
            0 <= final(self).position.y <= PADDLE_FLOOR,
    {
        let mut row: i64 = self.position.y as i64;
        if up {
            row = row - self.speed as i64;
        }
        if down {
            row = row + self.speed as i64;
        }
        clamp(&mut row, 0, PADDLE_FLOOR as i64);
        self.position.y = row as i32;
    }
}

} // verus!
