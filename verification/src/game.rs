//! The state of a game and the rules of one frame.

use vstd::prelude::*;
use crate::config::Config;
use crate::entity::{lemma_spin_is_bounded, Body, Entity};
use crate::geometry::{Size, Vector};
use crate::units::{half, halve, in_range, lemma_toward_zero, LIMIT};

verus! {

/// One of the two players. Player one holds the left paddle.
#[derive(Clone, Copy, Debug, PartialEq, Eq)]
pub enum Player {
    One,
    Two,
}

/// Which of the four keys are held during a frame.
#[derive(Clone, Copy, Debug, PartialEq, Eq)]
pub struct Input {
    pub player1_up: bool,
    pub player1_down: bool,
    pub player2_up: bool,
    pub player2_down: bool,
}

/// What a frame reports besides the new state.
#[derive(Clone, Copy, Debug, PartialEq, Eq)]
pub struct Outcome {
    /// The paddle that the ball struck, if any.
    pub paddle_hit: Option<Player>,
    /// The ball has left the window on the left.
    pub player2_wins: bool,
    /// The ball has left the window on the right.
    pub player1_wins: bool,
}

/// The two paddles and the ball.
#[derive(Clone, Copy, Debug, PartialEq, Eq)]
pub struct GameState {
    pub player1: Entity,
    pub player2: Entity,
    pub ball: Entity,
}

/// What a game state is, over unbounded integers.
pub struct World {
    pub player1: Body,
    pub player2: Body,
    pub ball: Body,
}

impl View for GameState {
    type V = World;

    open spec fn view(&self) -> World {
        World { player1: self.player1@, player2: self.player2@, ball: self.ball@ }
    }
}

/// The paddle that `ball` strikes. Player one's is looked at first, so a ball
/// that overlaps both strikes player one's.
pub open spec fn struck_paddle(ball: Body, player1: Body, player2: Body) -> Option<Player> {
    if ball.touches(player1) {
        Some(Player::One)
    } else if ball.touches(player2) {
        Some(Player::Two)
    } else {
        None
    }
}

impl World {
    /// The start of a game: each paddle at its margin from its side and the
    /// ball in the middle, all centred vertically, the ball moving left at
    /// the starting speed. The right paddle is set back from the right side
    /// by the width of the left one.
    pub open spec fn kickoff(config: Config, paddle1: Size, paddle2: Size, ball: Size) -> World {
        World {
            player1: Body {
                width: paddle1.width as int,
                height: paddle1.height as int,
                x: config.paddle_margin as int,
                y: half(config.window_height - paddle1.height),
                vx: 0,
                vy: 0,
            },
            player2: Body {
                width: paddle2.width as int,
                height: paddle2.height as int,
                x: config.window_width - paddle1.width - config.paddle_margin,
                y: half(config.window_height - paddle2.height),
                vx: 0,
                vy: 0,
            },
            ball: Body {
                width: ball.width as int,
                height: ball.height as int,
                x: half(config.window_width as int) - half(ball.width as int),
                y: half(config.window_height as int) - half(ball.height as int),
                vx: -config.ball_speed,
                vy: 0,
            },
        }
    }

    /// Player one's paddle after the keys and the clamp.
    pub open spec fn paddle1_after(self, config: Config, input: Input) -> Body {
        self.player1.steered(input.player1_up, input.player1_down, config.paddle_speed as int)
            .held_in(config.window_height as int)
    }

    /// Player two's paddle after the keys and the clamp.
    pub open spec fn paddle2_after(self, config: Config, input: Input) -> Body {
        self.player2.steered(input.player2_up, input.player2_down, config.paddle_speed as int)
            .held_in(config.window_height as int)
    }

    /// The paddle that the ball strikes in this frame: the moved ball
    /// against the moved paddles.
    pub open spec fn hit(self, config: Config, input: Input) -> Option<Player> {
        struck_paddle(
            self.ball.advanced(),
            self.paddle1_after(config, input),
            self.paddle2_after(config, input),
        )
    }

    /// The ball after the frame: moved, then deflected by the paddle it
    /// struck, then bounced off the walls.
    pub open spec fn ball_after(self, config: Config, input: Input) -> Body {
        let moved = self.ball.advanced();
        let sent = match self.hit(config, input) {
            Some(Player::One) => moved.deflected(self.paddle1_after(config, input), config),
            Some(Player::Two) => moved.deflected(self.paddle2_after(config, input), config),
            None => moved,
        };
        sent.bounced(config.window_height as int)
    }

    /// The state after one frame.
    pub open spec fn step(self, config: Config, input: Input) -> World {
        World {
            player1: self.paddle1_after(config, input),
            player2: self.paddle2_after(config, input),
            ball: self.ball_after(config, input),
        }
    }

    /// The state after one frame for each of `inputs`, in order.
    pub open spec fn run(self, config: Config, inputs: Seq<Input>) -> World
        decreases inputs.len(),
    {
        if inputs.len() == 0 {
            self
        } else {
            self.run(config, inputs.drop_last()).step(config, inputs.last())
        }
    }

    /// What the frame that starts in this state reports: the paddle struck,
    /// that player two has won if the ball ends the frame out on the left,
    /// and that player one has won if it ends the frame out on the right.
    pub open spec fn outcome(self, config: Config, input: Input) -> Outcome {
        Outcome {
            paddle_hit: self.hit(config, input),
            player2_wins: self.ball_after(config, input).out_left(),
            player1_wins: self.ball_after(config, input).out_right(config.window_width as int),
        }
    }
}

impl Player {
    /// The line that announces this player's win.
    pub fn win_message(self) -> (text: &'static str)
        ensures
            self == Player::One ==> text@ == "Player 1 wins!"@,
            self == Player::Two ==> text@ == "Player 2 wins!"@,
    {
        match self {
            Player::One => "Player 1 wins!",
            Player::Two => "Player 2 wins!",
        }
    }
}

impl Input {
    /// No key held.
    pub open spec fn idle() -> Input {
        Input { player1_up: false, player1_down: false, player2_up: false, player2_down: false }
    }

    /// No key held.
    pub fn none() -> (input: Input)
        ensures
            input == Input::idle(),
    {
        Input { player1_up: false, player1_down: false, player2_up: false, player2_down: false }
    }
}

impl Outcome {
    /// The winners in the order in which they are announced: player two
    /// before player one.
    pub open spec fn announced(self) -> Seq<Player> {
        let second = if self.player2_wins { seq![Player::Two] } else { seq![] };
        let first = if self.player1_wins { seq![Player::One] } else { seq![] };
        second + first
    }

    /// Whether the game ends with this frame.
    pub fn quit_requested(&self) -> (quit: bool)
        ensures
            quit == (self.player1_wins || self.player2_wins),
            quit == (self.announced().len() > 0),
    {
        self.player1_wins || self.player2_wins
    }

    /// The winners to announce, in order.
    pub fn winners(&self) -> (list: Vec<Player>)
        ensures
            list@ == self.announced(),
    {
        let mut list: Vec<Player> = Vec::new();
        if self.player2_wins {
            list.push(Player::Two);
        }
        if self.player1_wins {
            list.push(Player::One);
        }
        assert(list@ =~= self.announced());
        list
    }
}

/// Finds the paddle that `ball` strikes, player one's first.
pub fn paddle_hit(ball: &Entity, player1: &Entity, player2: &Entity) -> (hit: Option<Player>)
    requires
        ball@.within(2 * LIMIT),
        player1@.within(2 * LIMIT),
        player2@.within(2 * LIMIT),
    ensures
        hit == struck_paddle(ball@, player1@, player2@),
{
    if ball.touches(player1) {
        Some(Player::One)
    } else if ball.touches(player2) {
        Some(Player::Two)
    } else {
        None
    }
}

impl GameState {
    /// A frame can be computed from this state: every entity lies within
    /// `LIMIT`, and both paddles have a height.
    pub open spec fn wf(&self) -> bool {
        &&& self.player1.wf()
        &&& self.player2.wf()
        &&& self.ball.wf()
        &&& self.player1@.height > 0
        &&& self.player2@.height > 0
    }

    /// The start of a game with entities of the given sizes. Frames can be
    /// played from it if both paddles have a height and the right paddle's
    /// place lies within `LIMIT`.
    pub fn new(config: &Config, paddle1: Size, paddle2: Size, ball: Size) -> (state: GameState)
        requires
            config.wf(),
            paddle1.wf(),
            paddle2.wf(),
            ball.wf(),
        ensures
            state@ == World::kickoff(*config, paddle1, paddle2, ball),
            state.wf() <==> paddle1.height > 0 && paddle2.height > 0 && in_range(
                config.window_width - paddle1.width - config.paddle_margin,
            ),
    {
        proof {
            lemma_toward_zero(config.window_height - paddle1.height, 2);
            lemma_toward_zero(config.window_height - paddle2.height, 2);
            lemma_toward_zero(config.window_width as int, 2);
            lemma_toward_zero(config.window_height as int, 2);
            lemma_toward_zero(ball.width as int, 2);
            lemma_toward_zero(ball.height as int, 2);
        }
        let p1_position = Vector::new(
            config.paddle_margin,
            halve(config.window_height - paddle1.height),
        );
        let p2_position = Vector::new(
            config.window_width - paddle1.width - config.paddle_margin,
            halve(config.window_height - paddle2.height),
        );
        let ball_position = Vector::new(
            halve(config.window_width) - halve(ball.width),
            halve(config.window_height) - halve(ball.height),
        );
        let ball_velocity = Vector::new(-config.ball_speed, 0);
        GameState {
            player1: Entity::new(paddle1, p1_position),
            player2: Entity::new(paddle2, p2_position),
            ball: Entity::with_velocity(ball, ball_position, ball_velocity),
        }
    }

    /// Tests `wf`.
    pub fn is_valid(&self) -> (ok: bool)
        ensures
            ok == self.wf(),
    {
        self.player1.is_valid() && self.player2.is_valid() && self.ball.is_valid()
            && self.player1.height() > 0 && self.player2.height() > 0
    }

    /// Plays one frame: the paddles follow the keys and are kept inside the
    /// window, the ball moves, is sent back by the paddle it strikes and
    /// bounced off the walls, and the frame reports what was struck and who
    /// has won.
    pub fn update(&mut self, config: &Config, input: Input) -> (outcome: Outcome)
        requires
            old(self).wf(),
            config.wf(),
        ensures
            final(self)@ == old(self)@.step(*config, input),
            outcome == old(self)@.outcome(*config, input),
    {
        self.player1.steer(input.player1_up, input.player1_down, config.paddle_speed);
        self.player2.steer(input.player2_up, input.player2_down, config.paddle_speed);
        self.player1.clamp_to_window(config.window_height);
        self.player2.clamp_to_window(config.window_height);
        self.ball.advance();
        let paddle_hit = paddle_hit(&self.ball, &self.player1, &self.player2);
        match paddle_hit {
            Some(Player::One) => {
                proof {
                    lemma_spin_is_bounded(self.ball@, self.player1@, config.paddle_spin as int);
                }
                self.ball.deflect(&self.player1, config);
            },
            Some(Player::Two) => {
                proof {
                    lemma_spin_is_bounded(self.ball@, self.player2@, config.paddle_spin as int);
                }
                self.ball.deflect(&self.player2, config);
            },
            None => {},
        }
        self.ball.bounce_off_walls(config.window_height);
        let player2_wins = self.ball.is_out_left();
        let player1_wins = self.ball.is_out_right(config.window_width);
        Outcome { paddle_hit, player2_wins, player1_wins }
    }
}

} // verus!
