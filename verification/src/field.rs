//! The playing field: its extent and the clamping of a coordinate to a range.

use vstd::prelude::*;

verus! {

/// Width of the playing field.
pub const SCREEN_WIDTH: i32 = 1280;

/// Height of the playing field.
pub const SCREEN_HEIGHT: i32 = 720;

/// Distance kept between the top of a paddle and the bottom edge of the field.
pub const PADDLE_MARGIN: i32 = 100;

/// Lowest row that the top of a paddle may reach.
pub const PADDLE_FLOOR: i32 = SCREEN_HEIGHT - PADDLE_MARGIN;

/// Column on which the ball is put back into play.
pub const CENTER_X: i32 = 640;

/// Row on which the ball and the paddles start.
pub const CENTER_Y: i32 = 360;

/// `val` raised to at least `min`, then lowered to at most `max`.
///
/// Where `min <= max` the result lies in `min..=max`; otherwise it is `max`.
pub open spec fn clamped(val: int, min: int, max: int) -> int {
    let raised = if val < min { min } else { val };
    if raised > max { max } else { raised }
}

/// Forces `val` into `min..=max`.
pub fn clamp(val: &mut i64, min: i64, max: i64)
    ensures
        *final(val) == clamped(*old(val) as int, min as int, max as int),
{
    if *val < min {
        *val = min;
    }
    if *val > max {
        *val = max;
    }
}

/// A clamped value lies in the range it was clamped to, and a value already in
/// the range is left as it is.
pub proof fn lemma_clamped_in_range(val: int, min: int, max: int)
    requires
        min <= max,
    ensures
        min <= clamped(val, min, max) <= max,
        min <= val <= max ==> clamped(val, min, max) == val,
{
}

} // verus!
