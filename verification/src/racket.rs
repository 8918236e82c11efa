//! Rackets, and how each player's racket moves.

use vstd::prelude::*;
use crate::field::Field;
use crate::units::{
    higher, lower, magnitude, saturate, shifted, Vector2, COORD_LIMIT, MOVEMENT_SPEED,
};

verus! {

/// The colours of the game.
#[derive(Clone, Copy, PartialEq, Eq, Structural, Debug)]
pub enum Color {
    /// No colour at all: what a racket or ball has before the game is set up.
    Blank,
    Black,
    Blue,
    Red,
    White,
}

impl Default for Color {
    fn default() -> (c: Self)
        ensures
            c == Color::Blank,
    {
        Color::Blank
    }
}

/// A racket: an upright rectangle of `size` about its centre `position`.
#[derive(Clone, Copy, PartialEq, Eq, Structural, Debug)]
pub struct Racket {
    pub position: Vector2,
    pub size: Vector2,
    pub color: Color,
}

impl Default for Racket {
    fn default() -> (r: Self)
        ensures
            r == (Racket {
                position: Vector2 { x: 0, y: 0 },
                size: Vector2 { x: 0, y: 0 },
                color: Color::Blank,
            }),
    {
        Racket { position: Vector2::zero(), size: Vector2::zero(), color: Color::Blank }
    }
}

impl Racket {
    /// The centre is a coordinate pair, the width is not negative and the
    /// height is positive.
    pub open spec fn wf(self) -> bool {
        &&& self.position.within(COORD_LIMIT as int)
        &&& 0 <= self.size.x <= COORD_LIMIT
        &&& 0 < self.size.y <= COORD_LIMIT
    }

    /// The racket with its centre at height `y`.
    pub open spec fn at_height(self, y: int) -> Racket {
        Racket { position: Vector2 { x: self.position.x, y: y as i32 }, ..self }
    }

    /// Half the racket's height, rounded up to whole units: the least
    /// height of the centre at which the upper edge is on the field.
    pub open spec fn reach(self) -> int {
        (self.size.y + 1) / 2
    }

    /// The upper edge has not reached the top of the field.
    pub open spec fn may_rise(self) -> bool {
        2 * self.position.y > self.size.y
    }

    /// The lower edge has not reached the bottom of the field.
    pub open spec fn may_sink(self, field: Field) -> bool {
        2 * self.position.y < 2 * field.height - self.size.y
    }

    /// The racket lies on the field from its upper to its lower edge.
    pub open spec fn on_screen(self, field: Field) -> bool {
        self.size.y <= 2 * self.position.y <= 2 * field.height - self.size.y
    }

    /// The racket after a frame of the keys `up` and `down`: while `up` is
    /// held and the racket may rise, a step up, or as much of it as brings
    /// the upper edge to the top of the field; then, while `down` is held
    /// and the racket, where it then is, may sink, a step down, or as much
    /// of it as brings the lower edge to the bottom.
    pub open spec fn steered(self, up: bool, down: bool, field: Field) -> Racket {
        let risen = if up && self.may_rise() {
            self.at_height(higher(self.position.y - MOVEMENT_SPEED, self.reach()))
        } else {
            self
        };
        if down && risen.may_sink(field) {
            risen.at_height(lower(risen.position.y + MOVEMENT_SPEED, field.height - risen.reach()))
        } else {
            risen
        }
    }

    /// The racket after a frame of following a ball at height `target`: a
    /// step down if the ball is lower, then a step up if the ball is higher
    /// than the racket then is.
    pub open spec fn tracking(self, target: int) -> Racket {
        let sunk = if target > self.position.y {
            self.at_height(saturate(self.position.y + MOVEMENT_SPEED))
        } else {
            self
        };
        if target < sunk.position.y {
            sunk.at_height(saturate(sunk.position.y - MOVEMENT_SPEED))
        } else {
            sunk
        }
    }

    /// Moves the first player's racket by the keys held in this frame.
    pub fn steer(&mut self, up: bool, down: bool, field: &Field)
        requires
            old(self).wf(),
            field.wf(),
        ensures
            *final(self) == old(self).steered(up, down, *field),
            final(self).wf(),
            final(self).position.x == old(self).position.x,
            final(self).size == old(self).size,
            final(self).color == old(self).color,
            magnitude(final(self).position.y - old(self).position.y) <= MOVEMENT_SPEED,
            !up && !down ==> final(self).position.y == old(self).position.y,
            old(self).on_screen(*field) ==> final(self).on_screen(*field),
    {
        let reach: i32 = (self.size.y + 1) / 2;
        if up && 2 * (self.position.y as i64) > self.size.y as i64 {
            let raised: i32 = self.position.y - MOVEMENT_SPEED;
            self.position.y = if raised < reach { reach } else { raised };
        }
        if down && 2 * (self.position.y as i64) < 2 * (field.height as i64) - self.size.y as i64 {
            let lowered: i32 = self.position.y + MOVEMENT_SPEED;
            let lowest: i32 = field.height - reach;
            self.position.y = if lowered > lowest { lowest } else { lowered };
        }
    }

    /// Moves the second player's racket a step toward the height `target`.
    pub fn track(&mut self, target: i32)
        requires
            old(self).wf(),
        ensures
            *final(self) == old(self).tracking(target as int),
            final(self).wf(),
    {
        if target > self.position.y {
            self.position.y = shifted(self.position.y, MOVEMENT_SPEED);
        }
        if target < self.position.y {
            self.position.y = shifted(self.position.y, -MOVEMENT_SPEED);
        }
    }

    /// Tells whether the racket is well formed.
    pub fn is_valid(&self) -> (ok: bool)
        ensures
            ok == self.wf(),
    {
        -COORD_LIMIT <= self.position.x && self.position.x <= COORD_LIMIT && -COORD_LIMIT
            <= self.position.y && self.position.y <= COORD_LIMIT && 0 <= self.size.x
            && self.size.x <= COORD_LIMIT && 0 < self.size.y && self.size.y <= COORD_LIMIT
    }
}

} // verus!
