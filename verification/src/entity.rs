//! An entity on the screen, a paddle or the ball, and what a frame can do
//! to one.

use vstd::prelude::*;
use crate::config::Config;
use crate::geometry::{rectangles_overlap, Bounds, Size, Vector};
use crate::units::{
    away_from_zero, clamp, clamped, direction, direction_of, divide_away_from_zero, fits, half, halve,
    lemma_away_from_zero, LIMIT,
};

verus! {

/// A rectangle of fixed size at a position, with a velocity per frame.
#[derive(Clone, Copy, Debug, PartialEq, Eq)]
pub struct Entity {
    /// The extent, which never changes once the entity is made.
    pub size: Size,
    /// The top-left corner.
    pub position: Vector,
    /// The displacement per frame.
    pub velocity: Vector,
}

/// What an entity is, over unbounded integers.
pub struct Body {
    pub width: int,
    pub height: int,
    pub x: int,
    pub y: int,
    pub vx: int,
    pub vy: int,
}

impl View for Entity {
    type V = Body;

    open spec fn view(&self) -> Body {
        Body {
            width: self.size.width as int,
            height: self.size.height as int,
            x: self.position.x as int,
            y: self.position.y as int,
            vx: self.velocity.x as int,
            vy: self.velocity.y as int,
        }
    }
}

impl Body {
    /// The size is not negative, and size, position and velocity all lie
    /// within `bound` of zero.
    pub open spec fn within(self, bound: int) -> bool {
        &&& 0 <= self.width <= bound
        &&& 0 <= self.height <= bound
        &&& -bound <= self.x <= bound
        &&& -bound <= self.y <= bound
        &&& -bound <= self.vx <= bound
        &&& -bound <= self.vy <= bound
    }

    /// Horizontal coordinate of the centre: half a width right of the corner.
    pub open spec fn center_x(self) -> int {
        self.x + half(self.width)
    }

    /// Vertical coordinate of the centre: half a *width* below the corner.
    /// The centre is that of the square spanned by the width, whatever the
    /// height, and the spin a paddle gives is measured from there.
    pub open spec fn center_y(self) -> int {
        self.y + half(self.width)
    }

    /// Whether the rectangles of the two bodies overlap.
    pub open spec fn touches(self, other: Body) -> bool {
        rectangles_overlap(
            self.x,
            self.y,
            self.width,
            self.height,
            other.x,
            other.y,
            other.width,
            other.height,
        )
    }

    /// The body after the keys have acted on it: `speed` up if `up` is held,
    /// `speed` down if `down` is held, both if both are.
    pub open spec fn steered(self, up: bool, down: bool, speed: int) -> Body {
        let rise = if up { speed } else { 0 };
        let fall = if down { speed } else { 0 };
        Body { y: self.y - rise + fall, ..self }
    }

    /// The body kept inside a window of the given height: its top edge is
    /// clamped between `0` and the height less its own.
    pub open spec fn held_in(self, window_height: int) -> Body {
        Body { y: clamped(self.y, window_height - self.height), ..self }
    }

    /// The body moved by its velocity.
    pub open spec fn advanced(self) -> Body {
        Body { x: self.x + self.vx, y: self.y + self.vy, ..self }
    }

    /// The vertical speed that `paddle` adds to this ball: `spin` times the
    /// distance of the ball's centre below the paddle's, per paddle height.
    /// The quotient is rounded away from zero, so that every hit off the
    /// centre line turns the ball, however slightly.
    pub open spec fn spin_from(self, paddle: Body, spin: int) -> int {
        -away_from_zero(spin * (paddle.center_y() - self.center_y()), paddle.height)
    }

    /// The horizontal velocity after a paddle hit: `acc` faster, and
    /// reversed.
    pub open spec fn rebound(self, acc: int) -> int {
        -(self.vx + acc * direction(self.vx))
    }

    /// This ball after it has struck `paddle`.
    pub open spec fn deflected(self, paddle: Body, config: Config) -> Body {
        Body {
            vx: self.rebound(config.ball_acc as int),
            vy: self.vy + self.spin_from(paddle, config.paddle_spin as int),
            ..self
        }
    }

    /// Whether the body reaches the top of the window or the bottom at
    /// `window_height`.
    pub open spec fn at_wall(self, window_height: int) -> bool {
        self.y <= 0 || self.y + self.height >= window_height
    }

    /// Whether the body's left edge is left of the window.
    pub open spec fn out_left(self) -> bool {
        self.x < 0
    }

    /// Whether the body's right edge is right of a window of the given
    /// width.
    pub open spec fn out_right(self, window_width: int) -> bool {
        self.x + self.width > window_width
    }

    /// The body after the walls have acted on it: at a wall the vertical
    /// velocity is reversed; nothing else changes, the position neither.
    pub open spec fn bounced(self, window_height: int) -> Body {
        if self.at_wall(window_height) {
            Body { vy: -self.vy, ..self }
        } else {
            self
        }
    }
}

/// Between bodies within twice `LIMIT`, a spin within `LIMIT` turns the ball
/// by no more than six times the square of `LIMIT`, and the product it is
/// computed from is no larger.
pub proof fn lemma_spin_is_bounded(ball: Body, paddle: Body, spin: int)
    requires
        ball.within(2 * LIMIT),
        paddle.within(2 * LIMIT),
        paddle.height > 0,
        -LIMIT <= spin <= LIMIT,
    ensures
        -6 * LIMIT * LIMIT <= spin * (paddle.center_y() - ball.center_y()) <= 6 * LIMIT * LIMIT,
        -6 * LIMIT * LIMIT <= ball.spin_from(paddle, spin) <= 6 * LIMIT * LIMIT,
{
    let offset = paddle.center_y() - ball.center_y();
    assert(-6 * LIMIT * LIMIT <= spin * offset <= 6 * LIMIT * LIMIT) by (nonlinear_arith)
        requires
            -LIMIT <= spin <= LIMIT,
            -6 * LIMIT <= offset <= 6 * LIMIT,
    ;
    lemma_away_from_zero(spin * offset, paddle.height);
}

impl Entity {
    /// The size is valid and position and velocity lie within `LIMIT` of
    /// zero.
    pub open spec fn wf(&self) -> bool {
        self@.within(LIMIT as int)
    }

    /// An entity at rest.
    pub fn new(size: Size, position: Vector) -> (e: Entity)
        ensures
            e.size == size,
            e.position == position,
            e.velocity == (Vector { x: 0, y: 0 }),
    {
        Entity::with_velocity(size, position, Vector::zero())
    }

    /// An entity in motion.
    pub fn with_velocity(size: Size, position: Vector, velocity: Vector) -> (e: Entity)
        ensures
            e.size == size,
            e.position == position,
            e.velocity == velocity,
    {
        Entity { size, position, velocity }
    }

    pub fn width(&self) -> (w: i64)
        ensures
            w == self@.width,
    {
        self.size.width
    }

    pub fn height(&self) -> (h: i64)
        ensures
            h == self@.height,
    {
        self.size.height
    }

    /// The rectangle that the entity covers.
    pub fn bounds(&self) -> (b: Bounds)
        ensures
            b.x == self@.x,
            b.y == self@.y,
            b.width == self@.width,
            b.height == self@.height,
    {
        Bounds::new(self.position.x, self.position.y, self.width(), self.height())
    }

    /// The centre of the entity, half a width from the corner on both axes.
    pub fn center(&self) -> (c: Vector)
        requires
            fits(self@.center_x()),
            fits(self@.center_y()),
        ensures
            c.x == self@.center_x(),
            c.y == self@.center_y(),
    {
        Vector::new(self.position.x + halve(self.width()), self.position.y + halve(self.width()))
    }

    /// Tests `wf`.
    pub fn is_valid(&self) -> (ok: bool)
        ensures
            ok == self.wf(),
    {
        self.size.is_valid() && self.position.is_valid() && self.velocity.is_valid()
    }

    /// Whether the two entities overlap.
    pub fn touches(&self, other: &Entity) -> (hit: bool)
        requires
            fits(self@.x + self@.width),
            fits(self@.y + self@.height),
            fits(other@.x + other@.width),
            fits(other@.y + other@.height),
        ensures
            hit == self@.touches(other@),
    {
        let mine = self.bounds();
        let theirs = other.bounds();
        mine.intersects(&theirs)
    }

    /// Whether the entity has left the window on the left.
    pub fn is_out_left(&self) -> (out: bool)
        ensures
            out == self@.out_left(),
    {
        self.position.x < 0
    }

    /// Whether the entity has left a window of the given width on the
    /// right.
    pub fn is_out_right(&self, window_width: i64) -> (out: bool)
        requires
            fits(self@.x + self@.width),
        ensures
            out == self@.out_right(window_width as int),
    {
        self.position.x + self.size.width > window_width
    }

    /// Moves a paddle as the held keys ask.
    pub fn steer(&mut self, up: bool, down: bool, speed: i64)
        requires
            fits(old(self)@.y - speed),
            fits(old(self)@.y + speed),
        ensures
            final(self)@ == old(self)@.steered(up, down, speed as int),
    {
        if up {
            self.position.y = self.position.y - speed;
        }
        if down {
            self.position.y = self.position.y + speed;
        }
    }

    /// Keeps a paddle inside a window of the given height.
    pub fn clamp_to_window(&mut self, window_height: i64)
        requires
            fits(window_height - old(self)@.height),
        ensures
            final(self)@ == old(self)@.held_in(window_height as int),
    {
        self.position.y = clamp(self.position.y, window_height - self.size.height);
    }

    /// Moves the entity by its velocity.
    pub fn advance(&mut self)
        requires
            fits(old(self)@.x + old(self)@.vx),
            fits(old(self)@.y + old(self)@.vy),
        ensures
            final(self)@ == old(self)@.advanced(),
    {
        self.position = self.position.plus(self.velocity);
    }

    /// Sends the ball back from `paddle`, faster and with spin.
    pub fn deflect(&mut self, paddle: &Entity, config: &Config)
        requires
            old(self)@.within(2 * LIMIT),
            paddle@.within(2 * LIMIT),
            paddle@.height > 0,
            config.wf(),
        ensures
            final(self)@ == old(self)@.deflected(paddle@, *config),
    {
        let push: i64 = config.ball_acc * direction_of(self.velocity.x);
        let vx: i64 = -(self.velocity.x + push);
        let paddle_center = paddle.center();
        let ball_center = self.center();
        let offset: i64 = paddle_center.y - ball_center.y;
        proof {
            lemma_spin_is_bounded(old(self)@, paddle@, config.paddle_spin as int);
        }
        let turn: i64 = divide_away_from_zero(config.paddle_spin * offset, paddle.height());
        self.velocity.x = vx;
        self.velocity.y = self.velocity.y - turn;
    }

    /// Reverses the ball's vertical velocity where it reaches the top or the
    /// bottom of the window.
    pub fn bounce_off_walls(&mut self, window_height: i64)
        requires
            fits(old(self)@.y + old(self)@.height),
            fits(-old(self)@.vy),
        ensures
            final(self)@ == old(self)@.bounced(window_height as int),
    {
        if self.position.y <= 0 || self.position.y + self.size.height >= window_height {
            self.velocity.y = -self.velocity.y;
        }
    }
}

} // verus!
