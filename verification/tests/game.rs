use pong::config::Config;
use pong::entity::Entity;
use pong::game::{paddle_hit, GameState, Input, Outcome, Player};
use pong::geometry::{Size, Vector};
use pong::units::LIMIT;

fn paddle_at(x: i64, y: i64) -> Entity {
    Entity::new(Size::new(2_000, 10_000), Vector::new(x, y))
}

fn ball_at(x: i64, y: i64, vx: i64, vy: i64) -> Entity {
    Entity::with_velocity(Size::new(1_000, 1_000), Vector::new(x, y), Vector::new(vx, vy))
}

fn state_with_ball(ball: Entity) -> GameState {
    GameState { player1: paddle_at(1_600, 19_000), player2: paddle_at(60_400, 19_000), ball }
}

fn keys(player1_up: bool, player1_down: bool, player2_up: bool, player2_down: bool) -> Input {
    Input { player1_up, player1_down, player2_up, player2_down }
}

fn quiet() -> Outcome {
    Outcome { paddle_hit: None, player2_wins: false, player1_wins: false }
}

#[test]
fn standard_config_is_the_usual_game() {
    let c = Config::standard();
    assert_eq!(c.window_width, 64_000);
    assert_eq!(c.window_height, 48_000);
    assert_eq!(c.paddle_margin, 1_600);
    assert_eq!(c.paddle_speed, 800);
    assert_eq!(c.ball_speed, 500);
    assert_eq!(c.paddle_spin, 400);
    assert_eq!(c.ball_acc, 5);
    assert!(c.is_valid());
}

#[test]
fn config_validity_is_the_range_of_every_setting() {
    let c = Config::standard();
    assert!(!Config { window_width: LIMIT + 1, ..c }.is_valid());
    assert!(!Config { window_height: -LIMIT - 1, ..c }.is_valid());
    assert!(!Config { paddle_margin: LIMIT + 1, ..c }.is_valid());
    assert!(!Config { paddle_speed: LIMIT + 1, ..c }.is_valid());
    assert!(!Config { ball_speed: -LIMIT - 1, ..c }.is_valid());
    assert!(!Config { paddle_spin: LIMIT + 1, ..c }.is_valid());
    assert!(!Config { ball_acc: LIMIT + 1, ..c }.is_valid());
    assert!(Config { ball_acc: LIMIT, paddle_speed: -LIMIT, ..c }.is_valid());
}

#[test]
fn a_game_starts_with_centred_paddles_and_ball() {
    let state = GameState::new(
        &Config::standard(),
        Size::new(2_000, 10_000),
        Size::new(2_000, 10_000),
        Size::new(1_000, 1_000),
    );
    assert_eq!(state.player1, paddle_at(1_600, 19_000));
    assert_eq!(state.player2, paddle_at(60_400, 19_000));
    assert_eq!(state.ball, ball_at(31_500, 23_500, -500, 0));
    assert!(state.is_valid());
}

#[test]
fn the_right_paddle_is_set_back_by_the_width_of_the_left_one() {
    let state = GameState::new(
        &Config::standard(),
        Size::new(2_000, 10_000),
        Size::new(3_000, 8_000),
        Size::new(1_200, 800),
    );
    assert_eq!(state.player1.position, Vector { x: 1_600, y: 19_000 });
    assert_eq!(state.player2.position, Vector { x: 60_400, y: 20_000 });
    assert_eq!(state.player2.size, Size { width: 3_000, height: 8_000 });
    assert_eq!(state.ball.position, Vector { x: 31_400, y: 23_600 });
    assert_eq!(state.ball.velocity, Vector { x: -500, y: 0 });
}

#[test]
fn starting_positions_round_toward_zero() {
    let config = Config { window_width: 64_001, window_height: 5_001, ..Config::standard() };
    let state = GameState::new(
        &config,
        Size::new(2_000, 10_000),
        Size::new(2_000, 1_000),
        Size::new(1_001, 1_001),
    );
    assert_eq!(state.player1.position, Vector { x: 1_600, y: -2_499 });
    assert_eq!(state.player2.position, Vector { x: 60_401, y: 2_000 });
    assert_eq!(state.ball.position, Vector { x: 31_500, y: 2_000 });
}

#[test]
fn a_state_needs_paddles_with_a_height() {
    let mut state = state_with_ball(ball_at(31_500, 23_500, -500, 0));
    assert!(state.is_valid());
    state.player1.size.height = 0;
    assert!(!state.is_valid());
    state.player1.size.height = 10_000;
    state.player2.size.height = 0;
    assert!(!state.is_valid());
    state.player2.size.height = 10_000;
    state.ball.size.height = 0;
    assert!(state.is_valid());
    state.ball.position.x = LIMIT + 1;
    assert!(!state.is_valid());
}

#[test]
fn held_keys_move_the_paddles() {
    let config = Config::standard();
    let mut state = state_with_ball(ball_at(31_500, 23_500, -500, 0));
    let outcome = state.update(&config, keys(true, false, false, true));
    assert_eq!(state.player1, paddle_at(1_600, 18_200));
    assert_eq!(state.player2, paddle_at(60_400, 19_800));
    assert_eq!(outcome, quiet());
    state.update(&config, keys(false, true, true, false));
    assert_eq!(state.player1, paddle_at(1_600, 19_000));
    assert_eq!(state.player2, paddle_at(60_400, 19_000));
}

#[test]
fn paddles_stay_inside_the_window_under_sustained_holds() {
    let config = Config::standard();
    let mut state = state_with_ball(ball_at(31_500, 23_500, 0, 0));
    let mut frame = 0;
    while frame < 100 {
        assert!(state.is_valid());
        state.update(&config, keys(true, false, false, true));
        assert!(0 <= state.player1.position.y && state.player1.position.y <= 38_000);
        assert!(0 <= state.player2.position.y && state.player2.position.y <= 38_000);
        frame += 1;
    }
    assert_eq!(state.player1.position.y, 0);
    assert_eq!(state.player2.position.y, 38_000);
}

#[test]
fn a_paddle_reaches_the_top_in_steps_of_the_speed() {
    let config = Config::standard();
    let mut state = state_with_ball(ball_at(31_500, 23_500, 0, 0));
    let mut frame = 0;
    while frame < 23 {
        state.update(&config, keys(true, false, false, false));
        frame += 1;
    }
    assert_eq!(state.player1.position.y, 600);
    state.update(&config, keys(true, false, false, false));
    assert_eq!(state.player1.position.y, 0);
    state.update(&config, keys(true, false, false, false));
    assert_eq!(state.player1.position.y, 0);
}

#[test]
fn opposite_keys_held_together_leave_the_paddles_in_place() {
    let config = Config::standard();
    let mut state = state_with_ball(ball_at(31_500, 23_500, 0, 0));
    let mut frame = 0;
    while frame < 50 {
        state.update(&config, keys(true, true, true, true));
        frame += 1;
    }
    assert_eq!(state, state_with_ball(ball_at(31_500, 23_500, 0, 0)));
}

#[test]
fn opposite_keys_at_the_top_edge_still_end_inside() {
    let config = Config::standard();
    let mut state = state_with_ball(ball_at(31_500, 23_500, 0, 0));
    state.player1.position.y = 0;
    state.player2.position.y = 38_000;
    state.update(&config, keys(true, true, true, true));
    assert_eq!(state.player1.position.y, 0);
    assert_eq!(state.player2.position.y, 38_000);
}

#[test]
fn a_paddle_outside_the_window_is_brought_back() {
    let config = Config::standard();
    let mut state = state_with_ball(ball_at(31_500, 23_500, 0, 0));
    state.player1.position.y = -5_000;
    state.player2.position.y = 99_999;
    state.update(&config, Input::none());
    assert_eq!(state.player1.position.y, 0);
    assert_eq!(state.player2.position.y, 38_000);
}

#[test]
fn the_ball_moves_by_its_velocity_each_frame() {
    let config = Config::standard();
    let mut state = state_with_ball(ball_at(31_500, 23_500, -500, 0));
    state.update(&config, Input::none());
    assert_eq!(state.ball, ball_at(31_000, 23_500, -500, 0));
    state.update(&config, Input::none());
    assert_eq!(state.ball, ball_at(30_500, 23_500, -500, 0));
    state.update(&config, Input::none());
    assert_eq!(state.ball, ball_at(30_000, 23_500, -500, 0));
}

#[test]
fn the_ball_moves_along_both_axes() {
    let config = Config::standard();
    let mut state = state_with_ball(ball_at(10_000, 5_000, 300, -200));
    state.update(&config, Input::none());
    assert_eq!(state.ball, ball_at(10_300, 4_800, 300, -200));
    state.update(&config, Input::none());
    assert_eq!(state.ball, ball_at(10_600, 4_600, 300, -200));
}

#[test]
fn a_struck_ball_is_still_moved_by_its_old_velocity_only() {
    let config = Config::standard();
    let mut state = state_with_ball(ball_at(3_900, 21_000, -500, 0));
    let outcome = state.update(&config, Input::none());
    assert_eq!(outcome.paddle_hit, Some(Player::One));
    assert_eq!(state.ball.position, Vector { x: 3_400, y: 21_000 });
    state.update(&config, Input::none());
    assert_eq!(state.ball.position, Vector { x: 3_905, y: 21_060 });
}

#[test]
fn the_left_paddle_sends_the_ball_back_faster() {
    let config = Config::standard();
    let mut state = state_with_ball(ball_at(3_900, 21_000, -500, 0));
    let outcome = state.update(&config, Input::none());
    assert_eq!(outcome, Outcome { paddle_hit: Some(Player::One), ..quiet() });
    assert_eq!(state.ball.velocity, Vector { x: 505, y: 60 });
    assert_eq!(state.player1, paddle_at(1_600, 19_000));
    assert_eq!(state.player2, paddle_at(60_400, 19_000));
}

#[test]
fn the_right_paddle_sends_the_ball_back_faster() {
    let config = Config::standard();
    let mut state = state_with_ball(ball_at(59_000, 19_000, 500, 0));
    let outcome = state.update(&config, Input::none());
    assert_eq!(outcome, Outcome { paddle_hit: Some(Player::Two), ..quiet() });
    assert_eq!(state.ball.position, Vector { x: 59_500, y: 19_000 });
    assert_eq!(state.ball.velocity, Vector { x: -505, y: -20 });
}

#[test]
fn a_hit_five_units_above_the_centre_turns_the_ball_upward() {
    let config = Config::standard();
    let mut state = GameState {
        player1: Entity::new(Size::new(1_600, 6_400), Vector::new(1_600, 20_800)),
        player2: Entity::new(Size::new(1_600, 6_400), Vector::new(60_800, 20_800)),
        ball: Entity::with_velocity(
            Size::new(1_600, 1_600),
            Vector::new(3_500, 20_795),
            Vector::new(-500, 0),
        ),
    };
    assert!(state.is_valid());
    let outcome = state.update(&config, Input::none());
    assert_eq!(outcome, Outcome { paddle_hit: Some(Player::One), ..quiet() });
    assert_eq!(state.player1.center().y - state.ball.center().y, 5);
    assert_eq!(state.ball.position, Vector { x: 3_000, y: 20_795 });
    assert_eq!(state.ball.velocity, Vector { x: 505, y: -1 });
}

#[test]
fn a_hit_five_units_below_the_centre_turns_the_ball_downward() {
    let config = Config::standard();
    let mut state = GameState {
        player1: Entity::new(Size::new(1_600, 6_400), Vector::new(1_600, 20_800)),
        player2: Entity::new(Size::new(1_600, 6_400), Vector::new(60_800, 20_800)),
        ball: Entity::with_velocity(
            Size::new(1_600, 1_600),
            Vector::new(3_500, 20_805),
            Vector::new(-500, 0),
        ),
    };
    state.update(&config, Input::none());
    assert_eq!(state.ball.velocity, Vector { x: 505, y: 1 });
}

#[test]
fn the_ball_is_tested_against_the_paddles_after_they_moved() {
    let config = Config::standard();
    let mut missed = state_with_ball(ball_at(3_900, 17_500, -500, 0));
    assert_eq!(missed.update(&config, Input::none()).paddle_hit, None);
    let mut met = state_with_ball(ball_at(3_900, 17_500, -500, 0));
    let outcome = met.update(&config, keys(true, false, false, false));
    assert_eq!(outcome.paddle_hit, Some(Player::One));
    assert_eq!(met.player1.position.y, 18_200);
    assert_eq!(met.ball.velocity, Vector { x: 505, y: -48 });
}

#[test]
fn a_ball_that_overlaps_both_paddles_is_sent_back_by_the_first() {
    let config = Config::standard();
    let mut state = GameState {
        player1: paddle_at(3_000, 10_000),
        player2: paddle_at(3_000, 12_000),
        ball: ball_at(3_500, 12_500, -500, 0),
    };
    let outcome = state.update(&config, Input::none());
    assert_eq!(outcome.paddle_hit, Some(Player::One));
    assert_eq!(state.ball.velocity, Vector { x: 505, y: 80 });
    let mut swapped = GameState {
        player1: paddle_at(3_000, 12_000),
        player2: paddle_at(3_000, 10_000),
        ball: ball_at(3_500, 12_500, -500, 0),
    };
    let outcome = swapped.update(&config, Input::none());
    assert_eq!(outcome.paddle_hit, Some(Player::One));
    assert_eq!(swapped.ball.velocity, Vector { x: 505, y: 0 });
}

#[test]
fn paddle_hit_looks_at_player_one_first() {
    let ball = ball_at(3_000, 12_500, 0, 0);
    let near = paddle_at(3_000, 10_000);
    let also_near = paddle_at(3_000, 12_000);
    let far = paddle_at(60_400, 19_000);
    assert_eq!(paddle_hit(&ball, &near, &also_near), Some(Player::One));
    assert_eq!(paddle_hit(&ball, &near, &far), Some(Player::One));
    assert_eq!(paddle_hit(&ball, &far, &near), Some(Player::Two));
    assert_eq!(paddle_hit(&ball, &far, &far), None);
}

#[test]
fn a_ball_that_reaches_the_top_wall_bounces() {
    let config = Config::standard();
    let mut state = state_with_ball(ball_at(30_000, 300, -500, -300));
    let outcome = state.update(&config, Input::none());
    assert_eq!(outcome, quiet());
    assert_eq!(state.ball, ball_at(29_500, 0, -500, 300));
    state.update(&config, Input::none());
    assert_eq!(state.ball, ball_at(29_000, 300, -500, 300));
}

#[test]
fn a_ball_at_the_top_wall_moving_up_leaves_the_frame_moving_down() {
    let config = Config::standard();
    let mut state = state_with_ball(ball_at(30_000, 0, -500, -300));
    state.update(&config, Input::none());
    assert_eq!(state.ball.velocity, Vector { x: -500, y: 300 });
    assert_eq!(state.ball.position, Vector { x: 29_500, y: -300 });
}

#[test]
fn a_ball_that_reaches_the_bottom_wall_bounces() {
    let config = Config::standard();
    let mut state = state_with_ball(ball_at(30_000, 46_800, 500, 300));
    state.update(&config, Input::none());
    assert_eq!(state.ball, ball_at(30_500, 47_100, 500, -300));
}

#[test]
fn a_hit_at_a_wall_spins_first_and_bounces_second() {
    let config = Config::standard();
    let mut state = state_with_ball(ball_at(3_900, 0, -500, 0));
    state.player1.position.y = 0;
    let outcome = state.update(&config, Input::none());
    assert_eq!(outcome.paddle_hit, Some(Player::One));
    assert_eq!(state.ball.velocity, Vector { x: 505, y: 20 });
}

#[test]
fn a_ball_out_on_the_left_is_a_win_for_player_two() {
    let config = Config::standard();
    let mut state = state_with_ball(ball_at(-100, 23_500, 0, 0));
    let outcome = state.update(&config, Input::none());
    assert_eq!(outcome, Outcome { paddle_hit: None, player2_wins: true, player1_wins: false });
    assert!(outcome.quit_requested());
    assert_eq!(outcome.winners(), vec![Player::Two]);
}

#[test]
fn a_ball_out_on_the_right_is_a_win_for_player_one() {
    let config = Config::standard();
    let mut state = state_with_ball(ball_at(64_100, 23_500, 0, 0));
    let outcome = state.update(&config, Input::none());
    assert_eq!(outcome, Outcome { paddle_hit: None, player2_wins: false, player1_wins: true });
    assert!(outcome.quit_requested());
    assert_eq!(outcome.winners(), vec![Player::One]);
}

#[test]
fn a_ball_in_the_middle_is_no_win() {
    let config = Config::standard();
    let mut state = state_with_ball(ball_at(32_000, 23_500, 0, 0));
    let outcome = state.update(&config, Input::none());
    assert_eq!(outcome, quiet());
    assert!(!outcome.quit_requested());
    assert_eq!(outcome.winners(), vec![]);
}

#[test]
fn the_win_is_decided_where_the_ball_ends_the_frame() {
    let config = Config::standard();
    let mut leaving = state_with_ball(ball_at(400, 23_500, -500, 0));
    assert!(leaving.update(&config, Input::none()).player2_wins);
    let mut staying = state_with_ball(ball_at(500, 23_500, -500, 0));
    assert!(!staying.update(&config, Input::none()).player2_wins);
    assert_eq!(staying.ball.position.x, 0);
}

#[test]
fn player_one_wins_once_the_right_edge_of_the_ball_is_out() {
    let config = Config::standard();
    let mut touching = state_with_ball(ball_at(62_500, 5_000, 500, 0));
    assert!(!touching.update(&config, Input::none()).player1_wins);
    assert_eq!(touching.ball.position.x, 63_000);
    let mut out = state_with_ball(ball_at(62_501, 5_000, 500, 0));
    assert!(out.update(&config, Input::none()).player1_wins);
}

#[test]
fn a_ball_wider_than_the_window_is_out_on_both_sides() {
    let config = Config::standard();
    let wide = Entity::new(Size::new(70_000, 1_000), Vector::new(-1_000, 5_000));
    let mut state = GameState {
        player1: paddle_at(1_600, 19_000),
        player2: paddle_at(60_400, 19_000),
        ball: wide,
    };
    let outcome = state.update(&config, Input::none());
    assert!(outcome.player1_wins && outcome.player2_wins);
    assert_eq!(outcome.winners(), vec![Player::Two, Player::One]);
    assert!(outcome.quit_requested());
}

#[test]
fn wins_are_announced_by_name() {
    assert_eq!(Player::One.win_message(), "Player 1 wins!");
    assert_eq!(Player::Two.win_message(), "Player 2 wins!");
}

#[test]
fn no_key_is_held_in_the_empty_input() {
    assert_eq!(Input::none(), keys(false, false, false, false));
}

#[test]
fn a_resting_game_stays_as_it_is() {
    let config = Config::standard();
    let start = state_with_ball(ball_at(31_500, 23_500, 0, 0));
    let mut state = start;
    let mut frame = 0;
    while frame < 10 {
        let outcome = state.update(&config, Input::none());
        assert_eq!(outcome, quiet());
        assert_eq!(state, start);
        frame += 1;
    }
}

#[test]
fn a_resting_ball_on_a_paddle_is_pushed_off() {
    let config = Config::standard();
    let mut state = state_with_ball(ball_at(3_000, 19_500, 0, 0));
    let outcome = state.update(&config, Input::none());
    assert_eq!(outcome.paddle_hit, Some(Player::One));
    assert_eq!(state.ball, ball_at(3_000, 19_500, -5, 0));
}

#[test]
fn sizes_never_change() {
    let config = Config::standard();
    let mut state = state_with_ball(ball_at(3_900, 21_000, -500, 0));
    let mut frame = 0;
    while frame < 40 && state.is_valid() {
        state.update(&config, keys(frame % 2 == 0, frame % 3 == 0, frame % 5 == 0, true));
        assert_eq!(state.player1.size, Size { width: 2_000, height: 10_000 });
        assert_eq!(state.player2.size, Size { width: 2_000, height: 10_000 });
        assert_eq!(state.ball.size, Size { width: 1_000, height: 1_000 });
        assert_eq!(state.player1.position.x, 1_600);
        assert_eq!(state.player2.position.x, 60_400);
        frame += 1;
    }
    assert_eq!(frame, 40);
}

#[test]
fn a_rally_between_the_paddles() {
    let config = Config::standard();
    let mut state = GameState::new(
        &config,
        Size::new(2_000, 10_000),
        Size::new(2_000, 10_000),
        Size::new(1_000, 1_000),
    );
    let mut hits = Vec::new();
    let mut frame = 0;
    let mut last = quiet();
    while frame < 1_000 && !last.quit_requested() {
        assert!(state.is_valid());
        last = state.update(&config, Input::none());
        if let Some(player) = last.paddle_hit {
            hits.push((frame, player, state.ball.velocity));
        }
        frame += 1;
    }
    assert_eq!(hits[0], (55, Player::One, Vector { x: 505, y: 160 }));
    assert!(last.quit_requested());
}
