//! The playing field.

use vstd::prelude::*;
use crate::units::{from_pixels, Vector2, COORD_LIMIT, UNITS_PER_PIXEL};

verus! {

/// The rectangle of play, from `(0, 0)` at the top left to
/// `(width, height)`: the window's drawable area.
#[derive(Clone, Copy, PartialEq, Eq, Structural, Debug)]
pub struct Field {
    pub width: i32,
    pub height: i32,
}

impl Field {
    /// Both sides are positive and no longer than the coordinate range.
    pub open spec fn wf(self) -> bool {
        &&& 0 < self.width <= COORD_LIMIT
        &&& 0 < self.height <= COORD_LIMIT
    }

    /// The middle of the field, where a ball at rest lies.
    pub open spec fn center(self) -> Vector2 {
        Vector2 { x: (self.width / 2) as i32, y: (self.height / 2) as i32 }
    }

    /// The field of a window of `width` by `height` pixels.
    pub fn of_window(width: i32, height: i32) -> (field: Option<Self>)
        ensures
            field is Some <==> (0 < width * UNITS_PER_PIXEL <= COORD_LIMIT && 0 < height
                * UNITS_PER_PIXEL <= COORD_LIMIT),
            field matches Some(f) ==> f.width == width * UNITS_PER_PIXEL && f.height == height
                * UNITS_PER_PIXEL,
    {
        match (from_pixels(width), from_pixels(height)) {
            (Some(w), Some(h)) => {
                if w > 0 && h > 0 {
                    Some(Field { width: w, height: h })
                } else {
                    None
                }
            },
            _ => None,
        }
    }

    /// Computes the middle of the field.
    pub fn middle(&self) -> (c: Vector2)
        requires
            self.wf(),
        ensures
            c == self.center(),
    {
        Vector2 { x: self.width / 2, y: self.height / 2 }
    }

    /// Tells whether the field is well formed.
    pub fn is_valid(&self) -> (ok: bool)
        ensures
            ok == self.wf(),
    {
        0 < self.width && self.width <= COORD_LIMIT && 0 < self.height && self.height
            <= COORD_LIMIT
    }
}

} // verus!
