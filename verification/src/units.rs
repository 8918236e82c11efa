//! Units of length, the constants of play, and arithmetic on coordinates.
//!
//! Every length, position and speed is a whole number of units, a hundred to
//! the pixel, so that each step of the game is exact integer arithmetic.

use vstd::prelude::*;

verus! {

/// How many units make one pixel.
pub const UNITS_PER_PIXEL: i32 = 100;

/// What a racket travels in one frame: 4.2 pixels.
pub const MOVEMENT_SPEED: i32 = 420;

/// Bound of a serve's speed on each axis, and the vertical speed a ball takes
/// from the very edge of a racket's face: 10 pixels a frame.
pub const BALL_MAX_SPEED: i32 = 1000;

/// Least speed on each axis of a ball in play: 5 pixels a frame.
pub const BALL_MIN_SPEED: i32 = 500;

/// No coordinate leaves the range from `-COORD_LIMIT` to `COORD_LIMIT`.
pub const COORD_LIMIT: i32 = 1_000_000_000;

/// Largest radius of a ball.
pub const RADIUS_LIMIT: i32 = 1_000_000;

/// Bound of a ball's speed on each axis: the vertical speed with which a
/// ball of the largest radius leaves the end of the shortest racket.
pub const SPEED_LIMIT: i32 = 2_000_000_000;

/// A point or a displacement, in units.
#[derive(Clone, Copy, PartialEq, Eq, Structural, Debug)]
pub struct Vector2 {
    pub x: i32,
    pub y: i32,
}

impl Vector2 {
    /// Both components lie between `-limit` and `limit`.
    pub open spec fn within(self, limit: int) -> bool {
        &&& -limit <= self.x <= limit
        &&& -limit <= self.y <= limit
    }

    pub open spec fn is_zero(self) -> bool {
        self.x == 0 && self.y == 0
    }

    pub fn new(x: i32, y: i32) -> (v: Self)
        ensures
            v == (Vector2 { x, y }),
    {
        Vector2 { x, y }
    }

    pub fn zero() -> (v: Self)
        ensures
            v == (Vector2 { x: 0, y: 0 }),
    {
        Vector2 { x: 0, y: 0 }
    }
}

impl Default for Vector2 {
    fn default() -> (v: Self)
        ensures
            v == (Vector2 { x: 0, y: 0 }),
    {
        Vector2 { x: 0, y: 0 }
    }
}

/// The absolute value of `v`.
pub open spec fn magnitude(v: int) -> int {
    if v < 0 {
        -v
    } else {
        v
    }
}

/// The greater of `a` and `b`.
pub open spec fn higher(a: int, b: int) -> int {
    if a >= b {
        a
    } else {
        b
    }
}

/// The lesser of `a` and `b`.
pub open spec fn lower(a: int, b: int) -> int {
    if a <= b {
        a
    } else {
        b
    }
}

/// The coordinate nearest to `v` within the coordinate range.
pub open spec fn saturate(v: int) -> int {
    if v < -COORD_LIMIT {
        -COORD_LIMIT as int
    } else if v > COORD_LIMIT {
        COORD_LIMIT as int
    } else {
        v
    }
}

/// The quotient of `n` by a positive `d`, rounded toward zero.
pub open spec fn toward_zero(n: int, d: int) -> int {
    if n >= 0 {
        n / d
    } else {
        -((-n) / d)
    }
}

/// Moves a coordinate by `delta`, stopping at the end of the coordinate range.
pub fn shifted(coord: i32, delta: i32) -> (r: i32)
    ensures
        r == saturate(coord + delta),
{
    let sum: i64 = coord as i64 + delta as i64;
    if sum < -(COORD_LIMIT as i64) {
        -COORD_LIMIT
    } else if sum > COORD_LIMIT as i64 {
        COORD_LIMIT
    } else {
        sum as i32
    }
}

/// Converts a whole number of pixels to units, where the result is a
/// coordinate.
pub fn from_pixels(pixels: i32) -> (units: Option<i32>)
    ensures
        units matches Some(u) ==> u == pixels * UNITS_PER_PIXEL,
        units is Some <==> -COORD_LIMIT <= pixels * UNITS_PER_PIXEL <= COORD_LIMIT,
{
    let scaled: i64 = pixels as i64 * UNITS_PER_PIXEL as i64;
    if -(COORD_LIMIT as i64) <= scaled && scaled <= COORD_LIMIT as i64 {
        Some(scaled as i32)
    } else {
        None
    }
}

/// The whole pixels in a distance of `units`, rounded toward zero.
pub fn to_pixels(units: i32) -> (pixels: i32)
    ensures
        pixels == toward_zero(units as int, UNITS_PER_PIXEL as int),
{
    units / UNITS_PER_PIXEL
}

} // verus!
