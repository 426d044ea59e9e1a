//! The keys that steer the paddles.

use vstd::prelude::*;

verus! {

/// Which of the eight steering keys are held during one frame.
///
/// Each paddle answers to two keys per direction: the left paddle to `w` or
/// `d` for up and `s` or `a` for down, the right paddle to `up` or `right` for
/// up and `down` or `left` for down.
#[derive(Clone, Copy, Debug, PartialEq, Eq, Structural)]
pub struct Keys {
    pub w: bool,
    pub d: bool,
    pub s: bool,
    pub a: bool,
    pub up: bool,
    pub right: bool,
    pub down: bool,
    pub left: bool,
}

impl Keys {
    /// The left paddle is told to go up.
    pub open spec fn steers_left_up(self) -> bool {
        self.w || self.d
    }

    /// The left paddle is told to go down.
    pub open spec fn steers_left_down(self) -> bool {
        self.s || self.a
    }

    /// The right paddle is told to go up.
    pub open spec fn steers_right_up(self) -> bool {
        self.up || self.right
    }

    /// The right paddle is told to go down.
    pub open spec fn steers_right_down(self) -> bool {
        self.down || self.left
    }

    /// No key is held.
    pub open spec fn idle(self) -> bool {
        !self.w && !self.d && !self.s && !self.a && !self.up && !self.right && !self.down
            && !self.left
    }

    /// The frame in which no key is held.
    pub fn none() -> (keys: Keys)
        ensures
            keys.idle(),
    {
        Keys {
            w: false,
            d: false,
            s: false,
            a: false,
            up: false,
            right: false,
            down: false,
            left: false,
        }
    }

    /// Whether the left paddle is told to go up.
    pub fn left_up(&self) -> (held: bool)
        ensures
            held == self.steers_left_up(),
    {
        self.w || self.d
    }

    /// Whether the left paddle is told to go down.
    pub fn left_down(&self) -> (held: bool)
        ensures
            held == self.steers_left_down(),
    {
        self.s || self.a
    }

    /// Whether the right paddle is told to go up.
    pub fn right_up(&self) -> (held: bool)
        ensures
            held == self.steers_right_up(),
    {
        self.up || self.right
    }

    /// Whether the right paddle is told to go down.
    pub fn right_down(&self) -> (held: bool)
        ensures
            held == self.steers_right_down(),
    {
        self.down || self.left
    }
}

} // verus!
