//! Vectors, sizes and axis-aligned rectangles.

use vstd::prelude::*;
use crate::units::{fits, in_range, is_in_range, LIMIT};

verus! {

/// A point or a displacement in the plane. `y` grows downward.
#[derive(Clone, Copy, Debug, PartialEq, Eq)]
pub struct Vector {
    pub x: i64,
    pub y: i64,
}

/// The extent of an entity, as given by its picture.
#[derive(Clone, Copy, Debug, PartialEq, Eq)]
pub struct Size {
    pub width: i64,
    pub height: i64,
}

/// An axis-aligned rectangle: its top-left corner and its extent.
#[derive(Clone, Copy, Debug, PartialEq, Eq)]
pub struct Bounds {
    pub x: i64,
    pub y: i64,
    pub width: i64,
    pub height: i64,
}

impl Vector {
    /// Both coordinates lie within `LIMIT` of zero.
    pub open spec fn wf(&self) -> bool {
        in_range(self.x as int) && in_range(self.y as int)
    }

    pub fn new(x: i64, y: i64) -> (v: Vector)
        ensures
            v.x == x,
            v.y == y,
    {
        Vector { x, y }
    }

    /// The vector with both coordinates zero.
    pub fn zero() -> (v: Vector)
        ensures
            v.x == 0,
            v.y == 0,
    {
        Vector { x: 0, y: 0 }
    }

    /// The sum of the two vectors, coordinate by coordinate.
    pub fn plus(self, other: Vector) -> (sum: Vector)
        requires
            fits(self.x + other.x),
            fits(self.y + other.y),
        ensures
            sum.x == self.x + other.x,
            sum.y == self.y + other.y,
    {
        Vector { x: self.x + other.x, y: self.y + other.y }
    }

    /// Tests `wf`.
    pub fn is_valid(&self) -> (ok: bool)
        ensures
            ok == self.wf(),
    {
        is_in_range(self.x) && is_in_range(self.y)
    }
}

impl Size {
    /// Neither side is negative or longer than `LIMIT`.
    pub open spec fn wf(&self) -> bool {
        0 <= self.width <= LIMIT && 0 <= self.height <= LIMIT
    }

    pub fn new(width: i64, height: i64) -> (s: Size)
        ensures
            s.width == width,
            s.height == height,
    {
        Size { width, height }
    }

    /// Tests `wf`.
    pub fn is_valid(&self) -> (ok: bool)
        ensures
            ok == self.wf(),
    {
        0 <= self.width && self.width <= LIMIT && 0 <= self.height && self.height <= LIMIT
    }
}

/// Whether the rectangle at (`ax`, `ay`) of extent `aw` by `ah` and the one at
/// (`bx`, `by`) of extent `bw` by `bh` overlap. Rectangles that only share an
/// edge do not.
pub open spec fn rectangles_overlap(
    ax: int,
    ay: int,
    aw: int,
    ah: int,
    bx: int,
    by: int,
    bw: int,
    bh: int,
) -> bool {
    &&& ax < bx + bw
    &&& ax + aw > bx
    &&& ay < by + bh
    &&& ay + ah > by
}

impl Bounds {
    /// Both far edges can be computed.
    pub open spec fn wf(&self) -> bool {
        fits(self.x + self.width) && fits(self.y + self.height)
    }

    /// Whether the two rectangles overlap.
    pub open spec fn overlaps(&self, other: &Bounds) -> bool {
        rectangles_overlap(
            self.x as int,
            self.y as int,
            self.width as int,
            self.height as int,
            other.x as int,
            other.y as int,
            other.width as int,
            other.height as int,
        )
    }

    pub fn new(x: i64, y: i64, width: i64, height: i64) -> (b: Bounds)
        ensures
            b.x == x,
            b.y == y,
            b.width == width,
            b.height == height,
    {
        Bounds { x, y, width, height }
    }

    /// Whether `other` overlaps `self`.
    pub fn intersects(&self, other: &Bounds) -> (hit: bool)
        requires
            self.wf(),
            other.wf(),
        ensures
            hit == self.overlaps(other),
    {
        self.x < other.x + other.width && self.x + self.width > other.x && self.y < other.y
            + other.height && self.y + self.height > other.y
    }
}

} // verus!
