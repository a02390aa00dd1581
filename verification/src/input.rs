//! The keyboard, as far as the game listens to it.

use vstd::prelude::*;
use crate::paddle::PADDLE_SPEED;

verus! {

/// A key of the keyboard.
#[derive(Clone, Copy, Debug, PartialEq, Eq)]
pub enum Key {
    /// The left arrow.
    Left,
    /// The right arrow.
    Right,
    /// The escape key.
    Escape,
    /// Any other key.
    Other,
}

/// What the caller is asked to do after a key event.
#[derive(Clone, Copy, Debug, PartialEq, Eq)]
pub enum Action {
    /// Go on with the next frame.
    Continue,
    /// Close the window and leave.
    Quit,
}

/// The paddle's horizontal velocity once `key` has gone down, `current`
/// being its velocity before: an arrow sets it, no other key touches it.
pub open spec fn speed_after_press(key: Key, current: int) -> int {
    match key {
        Key::Left => -PADDLE_SPEED,
        Key::Right => PADDLE_SPEED as int,
        _ => current,
    }
}

/// The paddle's horizontal velocity once `key` has come up, `current` being
/// its velocity before: either arrow stops the paddle, whichever one had set
/// it moving.
pub open spec fn speed_after_release(key: Key, current: int) -> int {
    match key {
        Key::Left | Key::Right => 0,
        _ => current,
    }
}

} // verus!
