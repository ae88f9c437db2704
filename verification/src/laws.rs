//! What holds of every frame, proved from the rules.

use vstd::prelude::*;
use crate::config::Config;
use crate::entity::Body;
use crate::game::{struck_paddle, Input, Player, World};
use crate::geometry::Bounds;
use crate::units::{away_from_zero, clamped, direction, lemma_away_from_zero, magnitude};

verus! {

/// A frame changes no entity's size, and moves a paddle only up or down: its
/// horizontal position and its velocity stay as they were.
pub proof fn law_frame_keeps_sizes_and_paddle_columns(w: World, config: Config, input: Input)
    ensures
        w.step(config, input).player1.width == w.player1.width,
        w.step(config, input).player1.height == w.player1.height,
        w.step(config, input).player2.width == w.player2.width,
        w.step(config, input).player2.height == w.player2.height,
        w.step(config, input).ball.width == w.ball.width,
        w.step(config, input).ball.height == w.ball.height,
        w.step(config, input).player1.x == w.player1.x,
        w.step(config, input).player2.x == w.player2.x,
        w.step(config, input).player1.vx == w.player1.vx,
        w.step(config, input).player1.vy == w.player1.vy,
        w.step(config, input).player2.vx == w.player2.vx,
        w.step(config, input).player2.vy == w.player2.vy,
{
}

/// No number of frames changes an entity's size.
pub proof fn law_run_keeps_sizes(w: World, config: Config, inputs: Seq<Input>)
    ensures
        w.run(config, inputs).player1.width == w.player1.width,
        w.run(config, inputs).player1.height == w.player1.height,
        w.run(config, inputs).player2.width == w.player2.width,
        w.run(config, inputs).player2.height == w.player2.height,
        w.run(config, inputs).ball.width == w.ball.width,
        w.run(config, inputs).ball.height == w.ball.height,
    decreases inputs.len(),
{
    if inputs.len() > 0 {
        law_run_keeps_sizes(w, config, inputs.drop_last());
        law_frame_keeps_sizes_and_paddle_columns(
            w.run(config, inputs.drop_last()),
            config,
            inputs.last(),
        );
    }
}

/// After a frame, whatever keys were held and wherever the paddle was, a
/// paddle that is no taller than the window lies inside it.
pub proof fn law_paddles_stay_in_window(w: World, config: Config, input: Input)
    ensures
        w.player1.height <= config.window_height ==> 0 <= w.step(config, input).player1.y
            <= config.window_height - w.player1.height,
        w.player2.height <= config.window_height ==> 0 <= w.step(config, input).player2.y
            <= config.window_height - w.player2.height,
{
}

/// After any sequence of one or more frames, whatever keys were held in
/// each, a paddle that is no taller than the window lies inside it.
pub proof fn law_paddles_stay_in_window_forever(w: World, config: Config, inputs: Seq<Input>)
    requires
        inputs.len() > 0,
    ensures
        w.player1.height <= config.window_height ==> 0 <= w.run(config, inputs).player1.y
            <= config.window_height - w.player1.height,
        w.player2.height <= config.window_height ==> 0 <= w.run(config, inputs).player2.y
            <= config.window_height - w.player2.height,
{
    let before = w.run(config, inputs.drop_last());
    law_run_keeps_sizes(w, config, inputs.drop_last());
    law_paddles_stay_in_window(before, config, inputs.last());
}

/// A clamped coordinate lies between `0` and `max` whenever `max` is not
/// negative, and a coordinate already there is left where it is.
pub proof fn law_clamp_holds_inside(y: int, max: int)
    ensures
        max >= 0 ==> 0 <= clamped(y, max) <= max,
        0 <= y <= max ==> clamped(y, max) == y,
        max >= 0 ==> clamped(clamped(y, max), max) == clamped(y, max),
{
}

/// Overlap does not depend on which rectangle is asked; a rectangle with
/// positive sides overlaps itself; and rectangles that only share an edge do
/// not overlap.
pub proof fn law_overlap(a: Bounds, b: Bounds)
    ensures
        a.overlaps(&b) == b.overlaps(&a),
        a.width > 0 && a.height > 0 ==> a.overlaps(&a),
        b.x == a.x + a.width ==> !a.overlaps(&b),
        b.y == a.y + a.height ==> !a.overlaps(&b),
{
}

/// Holding both keys of a paddle moves it no differently from holding
/// neither.
pub proof fn law_opposite_keys_cancel(p: Body, speed: int)
    ensures
        p.steered(true, true, speed) == p.steered(false, false, speed),
        p.steered(false, false, speed) == p,
{
}

/// In every frame the ball's position grows by exactly its velocity at the
/// start of the frame: neither a paddle nor a wall moves the ball.
pub proof fn law_ball_moves_by_velocity(w: World, config: Config, input: Input)
    ensures
        w.step(config, input).ball.x == w.ball.x + w.ball.vx,
        w.step(config, input).ball.y == w.ball.y + w.ball.vy,
{
}

/// A ball that overlaps both paddles is sent back by player one's alone.
pub proof fn law_first_paddle_has_priority(w: World, config: Config, input: Input)
    requires
        w.ball.advanced().touches(w.paddle1_after(config, input)),
    ensures
        w.hit(config, input) == Some(Player::One),
        w.step(config, input).ball == w.ball.advanced().deflected(
            w.paddle1_after(config, input),
            config,
        ).bounced(config.window_height as int),
{
}

/// The three ways a frame can treat the ball: player one's paddle is struck
/// exactly when the ball overlaps it, player two's exactly when the ball
/// overlaps it and not player one's, and otherwise the ball only moves and
/// bounces.
pub proof fn law_paddle_hit_cases(ball: Body, player1: Body, player2: Body)
    ensures
        struck_paddle(ball, player1, player2) == Some(Player::One) <==> ball.touches(player1),
        struck_paddle(ball, player1, player2) == Some(Player::Two) <==> !ball.touches(player1)
            && ball.touches(player2),
        struck_paddle(ball, player1, player2).is_none() <==> !ball.touches(player1)
            && !ball.touches(player2),
{
}

/// With an acceleration that is not negative, a paddle hit turns the ball
/// round and makes it faster by exactly the acceleration. A ball without
/// horizontal motion leaves to the left.
pub proof fn law_rebound_reverses_and_speeds_up(ball: Body, acc: int)
    requires
        acc >= 0,
    ensures
        magnitude(ball.rebound(acc)) == magnitude(ball.vx) + acc,
        ball.vx > 0 ==> ball.rebound(acc) < 0,
        ball.vx < 0 ==> ball.rebound(acc) > 0,
        ball.vx == 0 ==> ball.rebound(acc) == -acc,
{
    assert(acc * direction(ball.vx) == if ball.vx < 0 { -acc } else { acc }) by (nonlinear_arith)
        requires
            direction(ball.vx) == if ball.vx < 0 { -1int } else { 1int },
    ;
}

/// A ball whose centre is level with the paddle's keeps its vertical
/// velocity. With a positive spin, a ball that strikes above the paddle's
/// centre is turned upward and one that strikes below is turned downward,
/// however small the offset. The turn is the exact quotient of spin times
/// offset by the paddle's height where that is whole, and otherwise the next
/// whole number away from zero.
pub proof fn law_spin_follows_offset(ball: Body, paddle: Body, spin: int)
    requires
        spin >= 0,
        paddle.height > 0,
    ensures
        ball.center_y() == paddle.center_y() ==> ball.spin_from(paddle, spin) == 0,
        spin == 0 ==> ball.spin_from(paddle, spin) == 0,
        spin > 0 && ball.center_y() < paddle.center_y() ==> ball.spin_from(paddle, spin) < 0,
        spin > 0 && ball.center_y() > paddle.center_y() ==> ball.spin_from(paddle, spin) > 0,
        magnitude(spin * (ball.center_y() - paddle.center_y())) <= magnitude(
            ball.spin_from(paddle, spin),
        ) * paddle.height < magnitude(spin * (ball.center_y() - paddle.center_y()))
            + paddle.height,
{
    let offset = paddle.center_y() - ball.center_y();
    lemma_away_from_zero(spin * offset, paddle.height);
    assert(offset > 0 && spin > 0 ==> spin * offset > 0) by (nonlinear_arith);
    assert(offset < 0 && spin > 0 ==> spin * offset < 0) by (nonlinear_arith);
    assert(offset == 0 || spin == 0 ==> spin * offset == 0) by (nonlinear_arith);
    assert(spin * (ball.center_y() - paddle.center_y()) == -(spin * offset)) by (nonlinear_arith)
        requires
            ball.center_y() - paddle.center_y() == -offset,
    ;
    let turn = away_from_zero(spin * offset, paddle.height);
    assert((-turn) * paddle.height == -(turn * paddle.height)) by (nonlinear_arith);
}

/// The mirror image of a hit turns the ball the other way by as much.
pub proof fn law_spin_is_odd(ball: Body, paddle: Body, mirrored: Body, spin: int)
    requires
        paddle.height > 0,
        mirrored.center_y() - paddle.center_y() == paddle.center_y() - ball.center_y(),
    ensures
        mirrored.spin_from(paddle, spin) == -ball.spin_from(paddle, spin),
{
    let offset = paddle.center_y() - ball.center_y();
    assert(spin * (-offset) == -(spin * offset)) by (nonlinear_arith);
    lemma_away_from_zero(spin * offset, paddle.height);
}

/// A wall reverses the ball's vertical velocity and nothing else; away from
/// the walls the ball is left as it is.
pub proof fn law_wall_reverses_vertical_only(ball: Body, window_height: int)
    ensures
        ball.at_wall(window_height) ==> ball.bounced(window_height).vy == -ball.vy,
        !ball.at_wall(window_height) ==> ball.bounced(window_height) == ball,
        ball.bounced(window_height).vx == ball.vx,
        ball.bounced(window_height).x == ball.x,
        ball.bounced(window_height).y == ball.y,
        ball.bounced(window_height).width == ball.width,
        ball.bounced(window_height).height == ball.height,
{
}

/// A frame in which no paddle is struck leaves the ball's horizontal
/// velocity as it was.
pub proof fn law_only_paddles_change_horizontal_velocity(w: World, config: Config, input: Input)
    requires
        w.hit(config, input).is_none(),
    ensures
        w.step(config, input).ball.vx == w.ball.vx,
        w.step(config, input).ball.vy == w.ball.vy || w.step(config, input).ball.vy == -w.ball.vy,
{
}

/// A ball that is no wider than the window cannot be out on both sides, so
/// a frame announces one winner at most.
pub proof fn law_one_winner_at_most(w: World, config: Config, input: Input)
    requires
        0 <= w.ball.width <= config.window_width,
    ensures
        !(w.outcome(config, input).player1_wins && w.outcome(config, input).player2_wins),
        w.outcome(config, input).announced().len() <= 1,
{
}

/// The game ends in the frame whose moved ball is out on a side, and the
/// frame says so.
pub proof fn law_frame_reports_exit(w: World, config: Config, input: Input)
    ensures
        w.outcome(config, input).player2_wins <==> w.ball.x + w.ball.vx < 0,
        w.outcome(config, input).player1_wins <==> w.ball.x + w.ball.vx + w.ball.width
            > config.window_width,
{
}

/// With no key held and a ball at rest, a frame leaves the state as it was
/// exactly when both paddles already lie where the clamp would put them and
/// the ball is not sent off by a paddle: it overlaps none, or the hit
/// changes nothing.
pub proof fn law_rest_is_fixed_point(w: World, config: Config)
    requires
        w.ball.vx == 0,
        w.ball.vy == 0,
    ensures
        w.step(config, Input::idle()) == w <==> {
            &&& clamped(w.player1.y, config.window_height - w.player1.height) == w.player1.y
            &&& clamped(w.player2.y, config.window_height - w.player2.height) == w.player2.y
            &&& match struck_paddle(w.ball, w.player1, w.player2) {
                Some(Player::One) => config.ball_acc == 0 && w.ball.spin_from(
                    w.player1,
                    config.paddle_spin as int,
                ) == 0,
                Some(Player::Two) => config.ball_acc == 0 && w.ball.spin_from(
                    w.player2,
                    config.paddle_spin as int,
                ) == 0,
                None => true,
            }
        },
{
    assert(config.ball_acc * direction(0) == config.ball_acc) by (nonlinear_arith)
        requires
            direction(0) == 1,
    ;
}

/// With no key held, a ball at rest that overlaps no paddle, and both
/// paddles inside the window, the state stays as it is through any number of
/// frames.
pub proof fn law_rest_lasts(w: World, config: Config, frames: nat)
    requires
        w.ball.vx == 0,
        w.ball.vy == 0,
        0 <= w.player1.y <= config.window_height - w.player1.height,
        0 <= w.player2.y <= config.window_height - w.player2.height,
        struck_paddle(w.ball, w.player1, w.player2).is_none(),
    ensures
        w.run(config, Seq::new(frames, |i: int| Input::idle())) == w,
    decreases frames,
{
    let inputs = Seq::new(frames, |i: int| Input::idle());
    if frames > 0 {
        let earlier = Seq::new((frames - 1) as nat, |i: int| Input::idle());
        assert(inputs.drop_last() =~= earlier);
        law_rest_lasts(w, config, (frames - 1) as nat);
        law_rest_is_fixed_point(w, config);
    }
}

} // verus!
