//! What a frame shows: the shapes to draw, laid out for the window.

use vstd::prelude::*;
use crate::field::Field;
use crate::game::Game;
use crate::racket::{Color, Racket};
use crate::units::{to_pixels, toward_zero, Vector2, UNITS_PER_PIXEL};

verus! {

/// The height of the score's digits, in pixels.
pub const FONT_SIZE: i32 = 72;

/// A filled rectangle from its top left corner, in whole pixels.
#[derive(Clone, Copy, PartialEq, Eq, Structural, Debug)]
pub struct Rectangle {
    pub x: i32,
    pub y: i32,
    pub width: i32,
    pub height: i32,
    pub color: Color,
}

/// A filled disc, in units.
#[derive(Clone, Copy, PartialEq, Eq, Structural, Debug)]
pub struct Disc {
    pub center: Vector2,
    pub radius: i32,
    pub color: Color,
}

/// A number written from its top left corner, in whole pixels.
#[derive(Clone, Copy, PartialEq, Eq, Structural, Debug)]
pub struct Label {
    pub number: u8,
    pub x: i32,
    pub y: i32,
    pub size: i32,
    pub color: Color,
}

/// All that one frame shows, in the order in which it is drawn.
#[derive(Clone, Copy, PartialEq, Eq, Structural, Debug)]
pub struct Scene {
    pub background: Color,
    pub racket_one: Rectangle,
    pub racket_two: Rectangle,
    pub ball: Disc,
    pub score_one: Label,
    pub score_two: Label,
}

/// The rectangle that shows `racket`: its corner and its sides, each rounded
/// toward zero to whole pixels.
pub open spec fn outline(racket: Racket) -> Rectangle {
    Rectangle {
        x: toward_zero(2 * racket.position.x - racket.size.x, 2 * UNITS_PER_PIXEL) as i32,
        y: toward_zero(2 * racket.position.y - racket.size.y, 2 * UNITS_PER_PIXEL) as i32,
        width: toward_zero(racket.size.x as int, UNITS_PER_PIXEL as int) as i32,
        height: toward_zero(racket.size.y as int, UNITS_PER_PIXEL as int) as i32,
        color: racket.color,
    }
}

/// A quarter of a side of `units`, in whole pixels.
pub open spec fn quarter(units: int) -> int {
    toward_zero(toward_zero(units, UNITS_PER_PIXEL as int), 4)
}

/// The scene of `game` on `field`: a white ground, both rackets, the ball,
/// and the scores a quarter of the height down, the first player's a quarter
/// and the second's three quarters of the width across.
pub open spec fn scene_of(game: Game, field: Field) -> Scene {
    Scene {
        background: Color::White,
        racket_one: outline(game.player_one.racket),
        racket_two: outline(game.player_two.racket),
        ball: Disc {
            center: game.ball.position,
            radius: game.ball.radius,
            color: game.ball.color,
        },
        score_one: Label {
            number: game.player_one.score,
            x: quarter(field.width as int) as i32,
            y: quarter(field.height as int) as i32,
            size: FONT_SIZE,
            color: Color::Black,
        },
        score_two: Label {
            number: game.player_two.score,
            x: (quarter(field.width as int) * 3) as i32,
            y: quarter(field.height as int) as i32,
            size: FONT_SIZE,
            color: Color::Black,
        },
    }
}

/// Lays out the rectangle that shows `racket`.
pub fn outline_of(racket: &Racket) -> (shape: Rectangle)
    ensures
        shape == outline(*racket),
{
    let left: i64 = 2 * (racket.position.x as i64) - racket.size.x as i64;
    let top: i64 = 2 * (racket.position.y as i64) - racket.size.y as i64;
    let span: i64 = 2 * (UNITS_PER_PIXEL as i64);
    Rectangle {
        x: (left / span) as i32,
        y: (top / span) as i32,
        width: to_pixels(racket.size.x),
        height: to_pixels(racket.size.y),
        color: racket.color,
    }
}

/// Lays out the scene of `game` on `field`.
pub fn draw(game: &Game, field: &Field) -> (scene: Scene)
    ensures
        scene == scene_of(*game, *field),
{
    let quarter_width: i32 = to_pixels(field.width) / 4;
    let quarter_height: i32 = to_pixels(field.height) / 4;
    Scene {
        background: Color::White,
        racket_one: outline_of(&game.player_one.racket),
        racket_two: outline_of(&game.player_two.racket),
        ball: Disc {
            center: game.ball.position,
            radius: game.ball.radius,
            color: game.ball.color,
        },
        score_one: Label {
            number: game.player_one.score,
            x: quarter_width,
            y: quarter_height,
            size: FONT_SIZE,
            color: Color::Black,
        },
        score_two: Label {
            number: game.player_two.score,
            x: quarter_width * 3,
            y: quarter_height,
            size: FONT_SIZE,
            color: Color::Black,
        },
    }
}

} // verus!
