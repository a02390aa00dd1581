//! The paddle: a bar that slides along the bottom of the window and never
//! leaves it.

use vstd::prelude::*;
use crate::geometry::{clamped, Vec2, WINDOW_HEIGHT, WINDOW_WIDTH};
use crate::scene::Rectangle;

verus! {

/// Speed at which the paddle slides while an arrow key is held down.
pub const PADDLE_SPEED: i32 = 5;

/// The bar at the bottom of the window. `position` is its top-left corner.
#[derive(Clone, Copy, Debug, PartialEq, Eq)]
pub struct Paddle {
    pub position: Vec2,
    pub velocity: Vec2,
    pub width: i32,
    pub height: i32,
}

impl Paddle {
    /// What holds of a paddle at all times: it is no wider than the window,
    /// its extent is not negative, and it moves sideways only.
    pub open spec fn wf(&self) -> bool {
        &&& 0 <= self.width <= WINDOW_WIDTH
        &&& 0 <= self.height
        &&& self.velocity.y == 0
    }

    /// Whether the paddle lies within the window from its left end to its
    /// right end.
    pub open spec fn in_window(&self) -> bool {
        0 <= self.position.x <= WINDOW_WIDTH - self.width
    }

    /// Whether the paddle can make its next move: it is well formed.
    pub open spec fn spec_can_update(&self) -> bool {
        self.wf()
    }

    /// The paddle that a game starts with: at rest, 100 by 20 pixels,
    /// midway between the left and right edges, its top twice its height
    /// above the bottom edge.
    pub open spec fn initial() -> Paddle {
        Paddle {
            position: Vec2 { x: 350, y: 560 },
            velocity: Vec2 { x: 0, y: 0 },
            width: 100,
            height: 20,
        }
    }

    /// A paddle as a game starts with it.
    pub fn new() -> (paddle: Paddle)
        ensures
            paddle == Paddle::initial(),
            paddle.wf(),
            paddle.in_window(),
    {
        let paddle_width: i32 = 100;
        let paddle_height: i32 = 20;
        let position = Vec2::new(
            (WINDOW_WIDTH - paddle_width) / 2,
            WINDOW_HEIGHT - paddle_height * 2,
        );
        Paddle {
            position,
            velocity: Vec2::new(0, 0),
            width: paddle_width,
            height: paddle_height,
        }
    }

    /// Tests whether [`Paddle::update`] may be called.
    #[verifier::when_used_as_spec(spec_can_update)]
    pub fn can_update(&self) -> (ok: bool)
        ensures
            ok == self.spec_can_update(),
    {
        0 <= self.width && self.width <= WINDOW_WIDTH && 0 <= self.height && self.velocity.y == 0
    }

    /// Moves the paddle by its velocity for one frame and brings it back
    /// into the window where the move has carried it out.
    pub fn update(&mut self)
        requires
            old(self).can_update(),
        ensures
            final(self).position.x == clamped(
                old(self).position.x + old(self).velocity.x,
                0,
                WINDOW_WIDTH - old(self).width,
            ),
            final(self).position.y == old(self).position.y,
            final(self).velocity == old(self).velocity,
            final(self).width == old(self).width,
            final(self).height == old(self).height,
            final(self).wf(),
            final(self).in_window(),
    {
        let mut x: i64 = self.position.x as i64 + self.velocity.x as i64;
        if x < 0 {
            x = 0;
        }
        if x + self.width as i64 > WINDOW_WIDTH as i64 {
            x = (WINDOW_WIDTH - self.width) as i64;
        }
        self.position.x = x as i32;
        self.position.y = self.position.y + self.velocity.y;
    }

    /// The bar to put on the screen for the paddle.
    pub fn draw(&self) -> (rectangle: Rectangle)
        ensures
            rectangle == (Rectangle {
                top_left: self.position,
                width: self.width,
                height: self.height,
            }),
    {
        Rectangle { top_left: self.position, width: self.width, height: self.height }
    }
}

} // verus!
