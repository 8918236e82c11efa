//! The match: two players, a ball, and the step from one frame to the next.

use rand::rngs::ThreadRng;
use vstd::prelude::*;
use crate::ball::{Ball, Side};
use crate::field::Field;
use crate::racket::{Color, Racket};
use crate::serve::{acceptable, draw_serve, drawable};
use crate::units::{magnitude, Vector2, BALL_MIN_SPEED, SPEED_LIMIT};

verus! {

/// The height of both rackets: 80 pixels.
pub const RACKET_HEIGHT: i32 = 8000;

/// The radius of the ball: 7 pixels.
pub const BALL_RADIUS: i32 = 700;

/// A player: a racket and the points won.
#[derive(Clone, Copy, PartialEq, Eq, Structural, Debug)]
pub struct Player {
    pub racket: Racket,
    pub score: u8,
}

impl Default for Player {
    fn default() -> (p: Self)
        ensures
            p == (Player {
                racket: Racket {
                    position: Vector2 { x: 0, y: 0 },
                    size: Vector2 { x: 0, y: 0 },
                    color: Color::Blank,
                },
                score: 0,
            }),
    {
        Player { racket: Racket::default(), score: 0 }
    }
}

/// The state of a match. The first player guards the left side with the
/// keys, the second follows the ball on the right.
#[derive(Clone, Copy, PartialEq, Eq, Structural, Debug)]
pub struct Game {
    pub player_one: Player,
    pub player_two: Player,
    pub ball: Ball,
}

impl Default for Game {
    /// A match with nothing set up: `init` makes it ready for play.
    fn default() -> (g: Self)
        ensures
            g.player_one.score == 0,
            g.player_two.score == 0,
            g.player_one.racket.position.is_zero(),
            g.player_one.racket.size.is_zero(),
            g.player_one.racket.color == Color::Blank,
            g.player_two.racket == g.player_one.racket,
            g.ball.position.is_zero(),
            g.ball.speed.is_zero(),
            g.ball.radius == 0,
            g.ball.color == Color::Blank,
            !g.ball.active,
    {
        let player_one: Player = Player::default();
        let player_two: Player = Player::default();
        let ball: Ball = Ball::default();
        Game { player_one, player_two, ball }
    }
}

/// The keys of one frame.
#[derive(Clone, Copy, PartialEq, Eq, Structural, Debug)]
pub struct Input {
    /// The key that moves the first player's racket up is held.
    pub up: bool,
    /// The key that moves the first player's racket down is held.
    pub down: bool,
    /// The key that serves the ball has gone down in this frame.
    pub launch: bool,
}

/// A score with one point more; a score of 255 stays.
pub open spec fn raised(score: u8) -> u8 {
    if score < u8::MAX {
        (score + 1) as u8
    } else {
        score
    }
}

impl Player {
    /// Gives the player a point.
    pub fn award(&mut self)
        ensures
            final(self).racket == old(self).racket,
            final(self).score == raised(old(self).score),
    {
        if self.score < u8::MAX {
            self.score = self.score + 1;
        }
    }
}

impl Game {
    /// Both rackets and the ball are well formed.
    pub open spec fn wf(self) -> bool {
        &&& self.player_one.racket.wf()
        &&& self.player_two.racket.wf()
        &&& self.ball.wf()
    }

    /// The match as it stands before the first serve on `field`: the rackets
    /// a tenth of the width from either end at mid height, a thirtieth of the
    /// width wide, the ball at rest in the centre, no points.
    pub open spec fn opening(field: Field) -> Game {
        Game {
            player_one: Player {
                racket: Racket {
                    position: Vector2 {
                        x: (field.width / 10) as i32,
                        y: (field.height / 2) as i32,
                    },
                    size: Vector2 { x: (field.width / 30) as i32, y: RACKET_HEIGHT },
                    color: Color::Blue,
                },
                score: 0,
            },
            player_two: Player {
                racket: Racket {
                    position: Vector2 {
                        x: (field.width * 9 / 10) as i32,
                        y: (field.height / 2) as i32,
                    },
                    size: Vector2 { x: (field.width / 30) as i32, y: RACKET_HEIGHT },
                    color: Color::Red,
                },
                score: 0,
            },
            ball: Ball {
                position: field.center(),
                speed: Vector2 { x: 0, y: 0 },
                radius: BALL_RADIUS,
                color: Color::Black,
                active: false,
            },
        }
    }

    /// This frame serves the ball: it is at rest, the serve key has gone
    /// down, and a speed was found for it.
    pub open spec fn serves(self, input: Input, serve: Option<Vector2>) -> bool {
        !self.ball.active && input.launch && serve is Some
    }

    /// The match after the first player's racket has moved.
    pub open spec fn steered(self, field: Field, input: Input) -> Game {
        Game {
            player_one: Player {
                racket: self.player_one.racket.steered(input.up, input.down, field),
                ..self.player_one
            },
            ..self
        }
    }

    /// The match after the serve, if this frame serves.
    pub open spec fn launched(self, input: Input, serve: Option<Vector2>) -> Game {
        if self.serves(input, serve) {
            Game { ball: self.ball.served(serve->0), ..self }
        } else {
            self
        }
    }

    /// The match after the second player's racket has followed the ball.
    pub open spec fn followed(self) -> Game {
        Game {
            player_two: Player {
                racket: self.player_two.racket.tracking(self.ball.position.y as int),
                ..self.player_two
            },
            ..self
        }
    }

    /// The match after the part of a frame that moves things: the first
    /// player's racket, the serve, the ball, the second player's racket and
    /// the speed floor, in this order.
    pub open spec fn in_motion(self, field: Field, input: Input, serve: Option<Vector2>) -> Game {
        let launched = self.steered(field, input).launched(input, serve);
        let moved = Game { ball: launched.ball.moved(field), ..launched }.followed();
        Game { ball: moved.ball.with_floor(), ..moved }
    }

    /// The first player wins a point in this frame.
    pub open spec fn point_for_one(self, field: Field) -> bool {
        self.ball.past_right(field)
    }

    /// The second player wins a point in this frame.
    pub open spec fn point_for_two(self) -> bool {
        self.ball.past_left()
    }

    /// The match after the points are counted: a ball past an end of the
    /// field comes to rest, and the player at the other end wins a point.
    pub open spec fn scored(self, field: Field) -> Game {
        let first = if self.point_for_one(field) {
            Game {
                ball: self.ball.stopped(),
                player_one: Player { score: raised(self.player_one.score), ..self.player_one },
                ..self
            }
        } else {
            self
        };
        if first.point_for_two() {
            Game {
                ball: first.ball.stopped(),
                player_two: Player { score: raised(first.player_two.score), ..first.player_two },
                ..first
            }
        } else {
            first
        }
    }

    /// The match after the ball has met the rackets, the first player's and
    /// then the second's.
    pub open spec fn bounced(self) -> Game {
        Game {
            ball: self.ball.bounced(self.player_one.racket, Side::Left).bounced(
                self.player_two.racket,
                Side::Right,
            ),
            ..self
        }
    }

    /// The match one frame later: what moves has moved, then the ball is
    /// turned at the walls, the points are counted, and the ball bounces off
    /// the rackets.
    pub open spec fn next(self, field: Field, input: Input, serve: Option<Vector2>) -> Game {
        let moved = self.in_motion(field, input, serve);
        Game { ball: moved.ball.reflected(field), ..moved }.scored(field).bounced()
    }

    /// Moves what moves in a frame.
    pub fn set_in_motion(&mut self, field: &Field, input: &Input, serve: Option<Vector2>)
        requires
            old(self).wf(),
            field.wf(),
            serve matches Some(v) ==> v.within(SPEED_LIMIT as int),
        ensures
            *final(self) == old(self).in_motion(*field, *input, serve),
            final(self).wf(),
            final(self).ball.active ==> magnitude(final(self).ball.speed.x as int)
                >= BALL_MIN_SPEED && magnitude(final(self).ball.speed.y as int)
                >= BALL_MIN_SPEED,
            final(self).ball.active == (old(self).ball.active || old(self).serves(*input, serve)),
            !final(self).ball.active ==> final(self).ball.position == field.center(),
            old(self).player_one.racket.on_screen(*field) ==> final(self).player_one.racket.on_screen(*field),
    {
        self.player_one.racket.steer(input.up, input.down, field);
        if !self.ball.active && input.launch {
            match serve {
                Some(speed) => {
                    self.ball.serve(speed);
                },
                None => {},
            }
        }
        self.ball.advance(field);
        self.player_two.racket.track(self.ball.position.y);
        self.ball.enforce_floor();
    }

    /// Counts the points of a frame.
    pub fn score(&mut self, field: &Field)
        requires
            old(self).wf(),
            field.wf(),
        ensures
            *final(self) == old(self).scored(*field),
            final(self).wf(),
            final(self).player_one.score == old(self).player_one.score || final(self).player_two.score == old(self).player_two.score,
    {
        if self.ball.position.x as i64 + self.ball.radius as i64 >= field.width as i64 {
            self.ball.stop();
            self.player_one.award();
        }
        if self.ball.position.x as i64 + self.ball.radius as i64 <= 0 {
            self.ball.stop();
            self.player_two.award();
        }
    }

    /// Lets the ball bounce off both rackets.
    pub fn bounce(&mut self)
        requires
            old(self).wf(),
        ensures
            *final(self) == old(self).bounced(),
            final(self).wf(),
    {
        let one: Racket = self.player_one.racket;
        let two: Racket = self.player_two.racket;
        self.ball.bounce(&one, Side::Left);
        self.ball.bounce(&two, Side::Right);
    }

    /// Carries the match through one frame, serving with `serve` if the
    /// frame serves.
    pub fn step(&mut self, field: &Field, input: &Input, serve: Option<Vector2>)
        requires
            old(self).wf(),
            field.wf(),
            serve matches Some(v) ==> v.within(SPEED_LIMIT as int),
        ensures
            *final(self) == old(self).next(*field, *input, serve),
            final(self).wf(),
            final(self).ball.active ==> magnitude(final(self).ball.speed.x as int)
                >= BALL_MIN_SPEED,
            final(self).player_one.score == old(self).player_one.score || final(self).player_two.score == old(self).player_two.score,
            !old(self).ball.active && !old(self).serves(*input, serve) ==> !final(self).ball.active && final(self).ball.position == field.center(),
            old(self).player_one.racket.on_screen(*field) ==> final(self).player_one.racket.on_screen(*field),
    {
        self.set_in_motion(field, input, serve);
        self.ball.reflect(field);
        self.score(field);
        self.bounce();
    }

    /// Tells whether the match is well formed.
    pub fn is_valid(&self) -> (ok: bool)
        ensures
            ok == self.wf(),
    {
        self.player_one.racket.is_valid() && self.player_two.racket.is_valid()
            && self.ball.is_valid()
    }
}

/// A serve that `update` can draw: none, or a speed that is acceptable and
/// within the range of the draw.
pub open spec fn possible_serve(serve: Option<Vector2>) -> bool {
    serve matches Some(v) ==> acceptable(v) && drawable(v)
}

/// Sets the match up for play on `field`.
pub fn init(game: &mut Game, field: &Field)
    requires
        field.wf(),
    ensures
        *final(game) == Game::opening(*field),
        final(game).wf(),
        field.height >= RACKET_HEIGHT ==> final(game).player_one.racket.on_screen(*field),
{
    let middle: Vector2 = field.middle();
    let width: i64 = field.width as i64;
    let racket_width: i32 = field.width / 30;

    game.player_one.racket.position = Vector2 { x: field.width / 10, y: middle.y };
    game.player_one.racket.size = Vector2 { x: racket_width, y: RACKET_HEIGHT };
    game.player_one.racket.color = Color::Blue;
    game.player_one.score = 0;

    game.player_two.racket.position = Vector2 { x: (width * 9 / 10) as i32, y: middle.y };
    game.player_two.racket.size = Vector2 { x: racket_width, y: RACKET_HEIGHT };
    game.player_two.racket.color = Color::Red;
    game.player_two.score = 0;

    game.ball.position = middle;
    game.ball.speed = Vector2::zero();
    game.ball.radius = BALL_RADIUS;
    game.ball.color = Color::Black;
    game.ball.active = false;
}

/// Carries the match through one frame. Where the frame is to serve, the
/// speed of the serve is drawn from `rng`; should chance give no acceptable
/// speed, the ball stays at rest for this frame.
pub fn update(game: &mut Game, field: &Field, input: &Input, rng: &mut ThreadRng)
    requires
        old(game).wf(),
        field.wf(),
    ensures
        final(game).wf(),
        exists|serve: Option<Vector2>|
            possible_serve(serve) && *final(game) == #[trigger] old(game).next(
                *field,
                *input,
                serve,
            ),
        old(game).ball.active || !input.launch ==> *final(game) == old(game).next(
            *field,
            *input,
            None,
        ),
        final(game).ball.active ==> magnitude(final(game).ball.speed.x as int) >= BALL_MIN_SPEED,
        final(game).player_one.score == old(game).player_one.score || final(game).player_two.score == old(game).player_two.score,
        !old(game).ball.active && !input.launch ==> !final(game).ball.active && final(game).ball.position == field.center(),
        old(game).player_one.racket.on_screen(*field) ==> final(game).player_one.racket.on_screen(
            *field,
        ),
{
    let serve: Option<Vector2> = if !game.ball.active && input.launch {
        draw_serve(rng)
    } else {
        None
    };
    game.step(field, input, serve);
}

} // verus!
