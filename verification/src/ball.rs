//! The ball: it moves by its velocity once per frame and turns back at the
//! edges of the window.

use vstd::prelude::*;
use crate::geometry::{reflected, Vec2, WINDOW_HEIGHT, WINDOW_WIDTH};
use crate::scene::Circle;

verus! {

/// The ball. `position` is its centre.
#[derive(Clone, Copy, Debug, PartialEq, Eq)]
pub struct Ball {
    pub position: Vec2,
    pub velocity: Vec2,
    pub radius: i32,
}

impl Ball {
    /// What holds of a ball at all times: its radius is not negative.
    pub open spec fn wf(&self) -> bool {
        self.radius >= 0
    }

    /// Whether the ball can make its next move: it is well formed, and the
    /// position that it moves to and its velocity reversed are both within
    /// the range of the coordinates.
    pub open spec fn spec_can_update(&self) -> bool {
        &&& self.wf()
        &&& i32::MIN <= self.position.x + self.velocity.x <= i32::MAX
        &&& i32::MIN <= self.position.y + self.velocity.y <= i32::MAX
        &&& -self.velocity.x <= i32::MAX
        &&& -self.velocity.y <= i32::MAX
    }

    /// The ball that a game starts with: in the middle of the window,
    /// heading down and to the right.
    pub open spec fn initial() -> Ball {
        Ball { position: Vec2 { x: 400, y: 300 }, velocity: Vec2 { x: 3, y: 3 }, radius: 10 }
    }

    /// A ball as a game starts with it.
    pub fn new() -> (ball: Ball)
        ensures
            ball == Ball::initial(),
            ball.wf(),
            ball.can_update(),
    {
        Ball {
            position: Vec2::new(WINDOW_WIDTH / 2, WINDOW_HEIGHT / 2),
            velocity: Vec2::new(3, 3),
            radius: 10,
        }
    }

    /// Tests whether [`Ball::update`] may be called.
    #[verifier::when_used_as_spec(spec_can_update)]
    pub fn can_update(&self) -> (ok: bool)
        ensures
            ok == self.spec_can_update(),
    {
        let x: i64 = self.position.x as i64 + self.velocity.x as i64;
        let y: i64 = self.position.y as i64 + self.velocity.y as i64;
        self.radius >= 0
            && i32::MIN as i64 <= x && x <= i32::MAX as i64
            && i32::MIN as i64 <= y && y <= i32::MAX as i64
            && self.velocity.x > i32::MIN
            && self.velocity.y > i32::MIN
    }

    /// Moves the ball by its velocity for one frame. Where that has carried
    /// the centre beyond an edge of the window, the velocity is reversed
    /// along that axis; the position is left where the move has put it.
    pub fn update(&mut self)
        requires
            old(self).can_update(),
        ensures
            final(self).position.x == old(self).position.x + old(self).velocity.x,
            final(self).position.y == old(self).position.y + old(self).velocity.y,
            final(self).velocity.x == reflected(
                final(self).position.x as int,
                old(self).velocity.x as int,
                WINDOW_WIDTH as int,
            ),
            final(self).velocity.y == reflected(
                final(self).position.y as int,
                old(self).velocity.y as int,
                WINDOW_HEIGHT as int,
            ),
            final(self).radius == old(self).radius,
            final(self).wf(),
    {
        self.position.x = self.position.x + self.velocity.x;
        self.position.y = self.position.y + self.velocity.y;
        if self.position.x < 0 || self.position.x > WINDOW_WIDTH {
            self.velocity.x = -self.velocity.x;
        }
        if self.position.y < 0 || self.position.y > WINDOW_HEIGHT {
            self.velocity.y = -self.velocity.y;
        }
    }

    /// The disc to put on the screen for the ball.
    pub fn draw(&self) -> (circle: Circle)
        ensures
            circle == (Circle { center: self.position, radius: self.radius }),
    {
        Circle { center: self.position, radius: self.radius }
    }
}

} // verus!
