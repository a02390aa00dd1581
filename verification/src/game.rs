//! The table as a whole: one ball, one paddle, the rule for their contact,
//! and the reactions to the keyboard.

use vstd::prelude::*;
use crate::ball::Ball;
use crate::geometry::{clamped, reflected, WINDOW_HEIGHT, WINDOW_WIDTH};
use crate::input::{speed_after_press, speed_after_release, Action, Key};
use crate::paddle::{Paddle, PADDLE_SPEED};
use crate::scene::{Circle, Rectangle, Scene};

verus! {

/// The state of a game between two frames.
#[derive(Clone, Copy, Debug, PartialEq, Eq)]
pub struct PinballGame {
    pub ball: Ball,
    pub paddle: Paddle,
}

impl PinballGame {
    /// Both parts are well formed.
    pub open spec fn wf(&self) -> bool {
        self.ball.wf() && self.paddle.wf()
    }

    /// Whether the next frame can be played: both parts can make their
    /// next move.
    pub open spec fn spec_can_update(&self) -> bool {
        self.ball.can_update() && self.paddle.can_update()
    }

    /// The contact rule: the ball's lowest point has reached the level of
    /// the paddle's top edge, and its centre lies between the paddle's left
    /// and right ends.
    pub open spec fn spec_ball_on_paddle(&self) -> bool {
        &&& self.ball.position.y + self.ball.radius >= self.paddle.position.y
        &&& self.ball.position.x >= self.paddle.position.x
        &&& self.ball.position.x <= self.paddle.position.x + self.paddle.width
    }

    /// A game at its start.
    pub fn new() -> (game: PinballGame)
        ensures
            game.ball == Ball::initial(),
            game.paddle == Paddle::initial(),
            game.wf(),
            game.can_update(),
    {
        PinballGame { ball: Ball::new(), paddle: Paddle::new() }
    }

    /// Tests whether [`PinballGame::update`] may be called.
    #[verifier::when_used_as_spec(spec_can_update)]
    pub fn can_update(&self) -> (ok: bool)
        ensures
            ok == self.spec_can_update(),
    {
        self.ball.can_update() && self.paddle.can_update()
    }

    /// Tests the contact rule.
    #[verifier::when_used_as_spec(spec_ball_on_paddle)]
    pub fn ball_on_paddle(&self) -> (contact: bool)
        ensures
            contact == self.spec_ball_on_paddle(),
    {
        let bottom: i64 = self.ball.position.y as i64 + self.ball.radius as i64;
        let left: i64 = self.paddle.position.x as i64;
        let right: i64 = left + self.paddle.width as i64;
        let x: i64 = self.ball.position.x as i64;
        bottom >= self.paddle.position.y as i64 && x >= left && x <= right
    }

    /// One frame. The ball moves and turns back at the edges, the paddle
    /// moves and is kept inside the window, and then the contact rule is
    /// applied to where the two have come to lie: on contact the ball's
    /// vertical velocity is reversed, in every frame in which the contact
    /// lasts.
    pub fn update(&mut self)
        requires
            old(self).can_update(),
        ensures
            final(self).ball.position.x == old(self).ball.position.x + old(self).ball.velocity.x,
            final(self).ball.position.y == old(self).ball.position.y + old(self).ball.velocity.y,
            final(self).ball.velocity.x == reflected(
                final(self).ball.position.x as int,
                old(self).ball.velocity.x as int,
                WINDOW_WIDTH as int,
            ),
            ({
                let off_the_edges = reflected(
                    final(self).ball.position.y as int,
                    old(self).ball.velocity.y as int,
                    WINDOW_HEIGHT as int,
                );
                final(self).ball.velocity.y == if final(self).ball_on_paddle() {
                    -off_the_edges
                } else {
                    off_the_edges
                }
            }),
            final(self).ball.radius == old(self).ball.radius,
            final(self).paddle.position.x == clamped(
                old(self).paddle.position.x + old(self).paddle.velocity.x,
                0,
                WINDOW_WIDTH - old(self).paddle.width,
            ),
            final(self).paddle.position.y == old(self).paddle.position.y,
            final(self).paddle.velocity == old(self).paddle.velocity,
            final(self).paddle.width == old(self).paddle.width,
            final(self).paddle.height == old(self).paddle.height,
            final(self).wf(),
            final(self).paddle.in_window(),
    {
        self.ball.update();
        self.paddle.update();
        if self.ball_on_paddle() {
            self.ball.velocity.y = -self.ball.velocity.y;
        }
    }

    /// The shapes to put on the screen for the current state.
    pub fn draw(&self) -> (scene: Scene)
        ensures
            scene.ball == (Circle { center: self.ball.position, radius: self.ball.radius }),
            scene.paddle == (Rectangle {
                top_left: self.paddle.position,
                width: self.paddle.width,
                height: self.paddle.height,
            }),
    {
        Scene { ball: self.ball.draw(), paddle: self.paddle.draw() }
    }

    /// A key has gone down. The left arrow sets the paddle moving to the
    /// left and the right arrow to the right; the escape key asks the caller
    /// to quit.
    pub fn key_down_event(&mut self, key: Key) -> (action: Action)
        ensures
            action == (if key == Key::Escape {
                Action::Quit
            } else {
                Action::Continue
            }),
            final(self).paddle.velocity.x == speed_after_press(
                key,
                old(self).paddle.velocity.x as int,
            ),
            final(self).paddle.velocity.y == old(self).paddle.velocity.y,
            final(self).paddle.position == old(self).paddle.position,
            final(self).paddle.width == old(self).paddle.width,
            final(self).paddle.height == old(self).paddle.height,
            final(self).ball == old(self).ball,
            final(self).can_update() == old(self).can_update(),
    {
        match key {
            Key::Left => {
                self.paddle.velocity.x = -PADDLE_SPEED;
                Action::Continue
            },
            Key::Right => {
                self.paddle.velocity.x = PADDLE_SPEED;
                Action::Continue
            },
            Key::Escape => Action::Quit,
            Key::Other => Action::Continue,
        }
    }

    /// A key has come up. Either arrow stops the paddle.
    pub fn key_up_event(&mut self, key: Key)
        ensures
            final(self).paddle.velocity.x == speed_after_release(
                key,
                old(self).paddle.velocity.x as int,
            ),
            final(self).paddle.velocity.y == old(self).paddle.velocity.y,
            final(self).paddle.position == old(self).paddle.position,
            final(self).paddle.width == old(self).paddle.width,
            final(self).paddle.height == old(self).paddle.height,
            final(self).ball == old(self).ball,
            final(self).can_update() == old(self).can_update(),
    {
        match key {
            Key::Left => {
                self.paddle.velocity.x = 0;
            },
            Key::Right => {
                self.paddle.velocity.x = 0;
            },
            _ => {},
        }
    }
}

} // verus!
