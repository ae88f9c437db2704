//! The settings of a game.

use vstd::prelude::*;
use crate::units::{in_range, is_in_range};

verus! {

/// The window and the constants of motion, all in units.
#[derive(Clone, Copy, Debug, PartialEq, Eq)]
pub struct Config {
    /// Width of the window.
    pub window_width: i64,
    /// Height of the window.
    pub window_height: i64,
    /// Gap between a paddle and its side of the window at the start.
    pub paddle_margin: i64,
    /// How far a paddle moves in a frame while a key is held.
    pub paddle_speed: i64,
    /// Horizontal speed of the ball at the start.
    pub ball_speed: i64,
    /// Vertical speed a paddle gives the ball per paddle height of offset.
    pub paddle_spin: i64,
    /// Horizontal speed the ball gains at each paddle hit.
    pub ball_acc: i64,
}

impl Config {
    /// Every setting lies within `LIMIT` of zero.
    pub open spec fn wf(&self) -> bool {
        &&& in_range(self.window_width as int)
        &&& in_range(self.window_height as int)
        &&& in_range(self.paddle_margin as int)
        &&& in_range(self.paddle_speed as int)
        &&& in_range(self.ball_speed as int)
        &&& in_range(self.paddle_spin as int)
        &&& in_range(self.ball_acc as int)
    }

    /// The usual game: a window of 640 by 480 pixels, paddles 16 pixels from
    /// the sides that move 8 pixels a frame, a ball that starts at 5 pixels a
    /// frame and gains a twentieth of a pixel at each hit, and a spin of 4.
    pub fn standard() -> (c: Config)
        ensures
            c.wf(),
            c == (Config {
                window_width: 64_000,
                window_height: 48_000,
                paddle_margin: 1_600,
                paddle_speed: 800,
                ball_speed: 500,
                paddle_spin: 400,
                ball_acc: 5,
            }),
    {
        Config {
            window_width: 64_000,
            window_height: 48_000,
            paddle_margin: 1_600,
            paddle_speed: 800,
            ball_speed: 500,
            paddle_spin: 400,
            ball_acc: 5,
        }
    }

    /// Tests `wf`.
    pub fn is_valid(&self) -> (ok: bool)
        ensures
            ok == self.wf(),
    {
        is_in_range(self.window_width) && is_in_range(self.window_height) && is_in_range(
            self.paddle_margin,
        ) && is_in_range(self.paddle_speed) && is_in_range(self.ball_speed) && is_in_range(
            self.paddle_spin,
        ) && is_in_range(self.ball_acc)
    }
}

} // verus!
