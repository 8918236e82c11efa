//! Two-player Pong as a verified simulation in integer arithmetic.
//!
//! A match is a plain value, [`Game`]. [`init`] sets it up on a [`Field`],
//! [`update`] carries it through one frame of keys, and [`draw`] lays out
//! what the frame shows. Lengths are whole hundredths of a pixel, so every
//! step is exact, and every step is proved against a statement of what it
//! does; `laws` holds what follows for every frame.

pub mod ball;
pub mod collision;
pub mod field;
pub mod game;
pub mod laws;
pub mod racket;
pub mod scene;
pub mod serve;
pub mod units;

pub use crate::ball::{Ball, Side};
pub use crate::field::Field;
pub use crate::game::{init, update, Game, Input, Player};
pub use crate::racket::{Color, Racket};
pub use crate::scene::{draw, Scene};
pub use crate::units::Vector2;
