//! A single-screen pinball table: one ball that bounces off the edges of a
//! fixed window and off a paddle that the player slides along the bottom.
//!
//! The crate holds the simulation only. Coordinates are whole pixels, with
//! the origin in the window's top-left corner and `y` growing downwards.
//! Opening the window, reading the keyboard and putting shapes on the screen
//! are the caller's business: the caller feeds key events in, asks for one
//! step per frame, and draws the shapes it is handed back.

pub mod ball;
pub mod game;
pub mod geometry;
pub mod input;
pub mod paddle;
pub mod scene;

pub use ball::Ball;
pub use game::PinballGame;
pub use geometry::{Vec2, WINDOW_HEIGHT, WINDOW_WIDTH};
pub use input::{Action, Key};
pub use paddle::{Paddle, PADDLE_SPEED};
pub use scene::{Circle, Rectangle, Scene};
