//! A verified core for a two-player game of Pong.
//!
//! Two paddles and one ball live in a window. Every frame the paddles follow
//! the held keys and are kept inside the window, the ball moves by its
//! velocity, bounces off a paddle (gaining speed and spin) and off the top and
//! bottom walls, and leaves the window on the left or right to end the game.
//!
//! All lengths, positions and velocities are whole numbers of one unit, a
//! hundredth of a pixel, so every rule is exact integer arithmetic. Each type
//! has a view over unbounded integers; the rules are spec functions on those
//! views, and the executable functions are proved to compute them.

pub mod units;

pub mod geometry;
pub mod config;
pub mod entity;
pub mod game;
pub mod laws;
