//! The ball: its motion, the speed floor, the walls and the rackets.

use vstd::prelude::*;
use crate::collision::{disc_hits_box, disc_meets_box, lemma_meeting_is_near};
use crate::field::Field;
use crate::racket::{Color, Racket};
use crate::units::{
    magnitude, saturate, shifted, toward_zero, Vector2, BALL_MAX_SPEED, BALL_MIN_SPEED,
    COORD_LIMIT, RADIUS_LIMIT, SPEED_LIMIT,
};

verus! {

/// The side of the field that a racket guards.
#[derive(Clone, Copy, PartialEq, Eq, Structural, Debug)]
pub enum Side {
    Left,
    Right,
}

/// The ball: a disc of `radius` about `position`, moving by `speed` each
/// frame while it is `active`, and at rest between a point and the next serve.
#[derive(Clone, Copy, PartialEq, Eq, Structural, Debug)]
pub struct Ball {
    pub position: Vector2,
    pub speed: Vector2,
    pub radius: i32,
    pub color: Color,
    pub active: bool,
}

impl Default for Ball {
    fn default() -> (b: Self)
        ensures
            b == (Ball {
                position: Vector2 { x: 0, y: 0 },
                speed: Vector2 { x: 0, y: 0 },
                radius: 0,
                color: Color::Blank,
                active: false,
            }),
    {
        Ball {
            position: Vector2::zero(),
            speed: Vector2::zero(),
            radius: 0,
            color: Color::Blank,
            active: false,
        }
    }
}

/// A speed along one axis after the floor: one of magnitude under
/// `BALL_MIN_SPEED` becomes `BALL_MIN_SPEED` with the sign it had, and zero
/// counts as positive.
pub open spec fn floored(v: int) -> int {
    if -BALL_MIN_SPEED < v < BALL_MIN_SPEED {
        if v < 0 {
            -BALL_MIN_SPEED as int
        } else {
            BALL_MIN_SPEED as int
        }
    } else {
        v
    }
}

impl Ball {
    /// The positions, speeds and radius are in range, and a ball at rest has
    /// no speed.
    pub open spec fn wf(self) -> bool {
        &&& self.position.within(COORD_LIMIT as int)
        &&& self.speed.within(SPEED_LIMIT as int)
        &&& 0 <= self.radius <= RADIUS_LIMIT
        &&& !self.active ==> self.speed.is_zero()
    }

    /// The ball served with the speed `speed`.
    pub open spec fn served(self, speed: Vector2) -> Ball {
        Ball { speed, active: true, ..self }
    }

    /// The ball a frame later: carried on by its speed while in play, and
    /// held at the centre of the field while at rest.
    pub open spec fn moved(self, field: Field) -> Ball {
        if self.active {
            Ball {
                position: Vector2 {
                    x: saturate(self.position.x + self.speed.x) as i32,
                    y: saturate(self.position.y + self.speed.y) as i32,
                },
                ..self
            }
        } else {
            Ball { position: field.center(), ..self }
        }
    }

    /// The ball with the speed floor applied to both axes, if it is in play.
    pub open spec fn with_floor(self) -> Ball {
        if self.active {
            Ball {
                speed: Vector2 {
                    x: floored(self.speed.x as int) as i32,
                    y: floored(self.speed.y as int) as i32,
                },
                ..self
            }
        } else {
            self
        }
    }

    /// The ball reaches the bottom of the field with its lower edge, or the
    /// top with its upper edge.
    pub open spec fn at_wall(self, field: Field) -> bool {
        ||| self.position.y + self.radius >= field.height
        ||| self.position.y - self.radius <= 0
    }

    /// The ball after the walls: at a wall its vertical speed is reversed.
    pub open spec fn reflected(self, field: Field) -> Ball {
        if self.at_wall(field) {
            Ball { speed: Vector2 { x: self.speed.x, y: (-self.speed.y) as i32 }, ..self }
        } else {
            self
        }
    }

    /// The ball's right edge has reached the right end of the field.
    pub open spec fn past_right(self, field: Field) -> bool {
        self.position.x + self.radius >= field.width
    }

    /// The ball's right edge has reached the left end of the field.
    pub open spec fn past_left(self) -> bool {
        self.position.x + self.radius <= 0
    }

    /// The ball brought to rest where it is.
    pub open spec fn stopped(self) -> Ball {
        Ball { speed: Vector2 { x: 0, y: 0 }, active: false, ..self }
    }

    /// The ball and the racket have a point in common. Measured in half
    /// units, in which the racket's edges are whole numbers.
    pub open spec fn touches(self, racket: Racket) -> bool {
        disc_meets_box(
            2 * self.position.x,
            2 * self.position.y,
            2 * self.radius,
            2 * racket.position.x,
            2 * racket.position.y,
            racket.size.x as int,
            racket.size.y as int,
        )
    }

    /// The ball moves toward the racket that guards `side`.
    pub open spec fn approaches(self, side: Side) -> bool {
        match side {
            Side::Left => self.speed.x < 0,
            Side::Right => self.speed.x > 0,
        }
    }

    /// The vertical speed that the racket gives the ball: the ball's height
    /// above or below the racket's centre, as a fraction of half the racket's
    /// height, times `BALL_MAX_SPEED`, rounded toward zero.
    pub open spec fn deflection(self, racket: Racket) -> int {
        toward_zero(
            2 * (self.position.y - racket.position.y) * BALL_MAX_SPEED,
            racket.size.y as int,
        )
    }

    /// The ball after the racket that guards `side`: if it touches the racket
    /// and moves toward it, its horizontal speed is reversed and its vertical
    /// speed is the racket's deflection.
    pub open spec fn bounced(self, racket: Racket, side: Side) -> Ball {
        if self.touches(racket) && self.approaches(side) {
            Ball {
                speed: Vector2 { x: (-self.speed.x) as i32, y: self.deflection(racket) as i32 },
                ..self
            }
        } else {
            self
        }
    }

    /// Where the ball touches the racket, the deflection is a speed in range.
    pub proof fn lemma_deflection_in_range(self, racket: Racket)
        requires
            self.wf(),
            racket.wf(),
            self.touches(racket),
        ensures
            -SPEED_LIMIT <= self.deflection(racket) <= SPEED_LIMIT,
    {
        let height = racket.size.y as int;
        let lift = 2 * (self.position.y - racket.position.y);
        lemma_meeting_is_near(
            2 * self.position.x,
            2 * self.position.y,
            2 * self.radius,
            2 * racket.position.x,
            2 * racket.position.y,
            racket.size.x as int,
            height,
        );
        assert(magnitude(lift) <= height + 2 * self.radius);
        if height == 1 {
            // Both `lift` and twice the radius are even.
            assert(magnitude(lift) <= 2 * self.radius);
        } else {
            lemma_quotient_bound(magnitude(lift) * BALL_MAX_SPEED, height, self.radius as int);
        }
    }

    /// Serves the ball with the speed `speed`.
    pub fn serve(&mut self, speed: Vector2)
        requires
            old(self).wf(),
            speed.within(SPEED_LIMIT as int),
        ensures
            *final(self) == old(self).served(speed),
            final(self).wf(),
    {
        self.active = true;
        self.speed = speed;
    }

    /// Carries the ball through one frame.
    pub fn advance(&mut self, field: &Field)
        requires
            old(self).wf(),
            field.wf(),
        ensures
            *final(self) == old(self).moved(*field),
            final(self).wf(),
            !old(self).active ==> final(self).position == field.center(),
    {
        if self.active {
            self.position.x = shifted(self.position.x, self.speed.x);
            self.position.y = shifted(self.position.y, self.speed.y);
        } else {
            self.position = field.middle();
        }
    }

    /// Applies the speed floor.
    pub fn enforce_floor(&mut self)
        requires
            old(self).wf(),
        ensures
            *final(self) == old(self).with_floor(),
            final(self).wf(),
            final(self).active ==> magnitude(final(self).speed.x as int) >= BALL_MIN_SPEED
                && magnitude(final(self).speed.y as int) >= BALL_MIN_SPEED,
    {
        if self.active {
            if self.speed.x > -BALL_MIN_SPEED && self.speed.x < BALL_MIN_SPEED {
                if self.speed.x < 0 {
                    self.speed.x = -BALL_MIN_SPEED;
                } else {
                    self.speed.x = BALL_MIN_SPEED;
                }
            }
            if self.speed.y > -BALL_MIN_SPEED && self.speed.y < BALL_MIN_SPEED {
                if self.speed.y < 0 {
                    self.speed.y = -BALL_MIN_SPEED;
                } else {
                    self.speed.y = BALL_MIN_SPEED;
                }
            }
        }
    }

    /// Reverses the vertical speed at the top and bottom of the field.
    pub fn reflect(&mut self, field: &Field)
        requires
            old(self).wf(),
        ensures
            *final(self) == old(self).reflected(*field),
            final(self).wf(),
            old(self).at_wall(*field) ==> final(self).speed.y == -old(self).speed.y,
            !old(self).at_wall(*field) ==> final(self).speed.y == old(self).speed.y,
    {
        if self.position.y as i64 + self.radius as i64 >= field.height as i64 || self.position.y
            - self.radius <= 0 {
            self.speed.y = -self.speed.y;
        }
    }

    /// Brings the ball to rest.
    pub fn stop(&mut self)
        requires
            old(self).wf(),
        ensures
            *final(self) == old(self).stopped(),
            final(self).wf(),
    {
        self.speed = Vector2::zero();
        self.active = false;
    }

    /// Tells whether the ball touches the racket.
    pub fn hits(&self, racket: &Racket) -> (hit: bool)
        requires
            self.wf(),
            racket.wf(),
        ensures
            hit == self.touches(*racket),
    {
        disc_hits_box(
            2 * (self.position.x as i64),
            2 * (self.position.y as i64),
            2 * (self.radius as i64),
            2 * (racket.position.x as i64),
            2 * (racket.position.y as i64),
            racket.size.x as i64,
            racket.size.y as i64,
        )
    }

    /// Lets the ball bounce off the racket that guards `side`.
    pub fn bounce(&mut self, racket: &Racket, side: Side)
        requires
            old(self).wf(),
            racket.wf(),
        ensures
            *final(self) == old(self).bounced(*racket, side),
            final(self).wf(),
            old(self).touches(*racket) && old(self).approaches(side) ==> final(self).speed.x
                == -old(self).speed.x,
    {
        if self.hits(racket) {
            let toward: bool = match side {
                Side::Left => self.speed.x < 0,
                Side::Right => self.speed.x > 0,
            };
            if toward {
                proof {
                    self.lemma_deflection_in_range(*racket);
                }
                let lift: i64 = 2 * (self.position.y as i64 - racket.position.y as i64);
                let turned: i64 = lift * (BALL_MAX_SPEED as i64) / (racket.size.y as i64);
                self.speed.x = -self.speed.x;
                self.speed.y = turned as i32;
            }
        }
    }

    /// Tells whether the ball is well formed.
    pub fn is_valid(&self) -> (ok: bool)
        ensures
            ok == self.wf(),
    {
        -COORD_LIMIT <= self.position.x && self.position.x <= COORD_LIMIT && -COORD_LIMIT
            <= self.position.y && self.position.y <= COORD_LIMIT && -SPEED_LIMIT <= self.speed.x
            && self.speed.x <= SPEED_LIMIT && -SPEED_LIMIT <= self.speed.y && self.speed.y
            <= SPEED_LIMIT && 0 <= self.radius && self.radius <= RADIUS_LIMIT && (self.active || (
        self.speed.x == 0 && self.speed.y == 0))
    }
}

/// A quantity of at most `(d + 2 * e) * BALL_MAX_SPEED`, divided by a `d` of
/// at least 2, is at most `BALL_MAX_SPEED * (1 + e)`.
proof fn lemma_quotient_bound(n: int, d: int, e: int)
    by (nonlinear_arith)
    requires
        d >= 2,
        e >= 0,
        0 <= n <= (d + 2 * e) * BALL_MAX_SPEED,
    ensures
        0 <= n / d <= BALL_MAX_SPEED * (1 + e),
{
}

} // verus!
