//! The coordinates of the cells of the grid.

use crate::vector::Position;
use vstd::prelude::*;

verus! {

/// The cell coordinate that an entity carries before it has been indexed.
pub const UNASSIGNED: i32 = -15000;

/// The integer coordinate of one square cell of the grid.
#[derive(PartialEq, Eq, Clone, Copy, Debug, Hash, Structural)]
pub struct QuadCoord {
    pub x: i32,
    pub y: i32,
}

impl QuadCoord {
    /// The cell `x` cells along and `y` cells up from the cell at the origin.
    pub fn new(x: i32, y: i32) -> (c: Self)
        ensures
            c.x == x,
            c.y == y,
    {
        Self { x, y }
    }

    /// The coordinate of an entity that is not indexed yet.
    pub fn default() -> (c: Self)
        ensures
            c == Self::unassigned(),
    {
        Self { x: UNASSIGNED, y: UNASSIGNED }
    }

    /// Whether this is the coordinate of an entity that is not indexed yet.
    pub fn is_unassigned(&self) -> (unassigned: bool)
        ensures
            unassigned == (*self == Self::unassigned()),
    {
        self.x == UNASSIGNED && self.y == UNASSIGNED
    }

    /// The coordinate that stands for "not indexed yet".
    pub open spec fn unassigned() -> Self {
        QuadCoord { x: UNASSIGNED, y: UNASSIGNED }
    }

    /// The coordinate as the pair under which the grid files its cell.
    pub open spec fn key(self) -> (i32, i32) {
        (self.x, self.y)
    }

    /// The cell of side `size` that holds `position`.
    pub open spec fn containing(position: Position, size: u32) -> Self {
        QuadCoord {
            x: floor_div(position.x as int, size as int) as i32,
            y: floor_div(position.y as int, size as int) as i32,
        }
    }

    /// Whether the cell filed under `k` lies in the block of three by three
    /// cells around `self`.
    pub open spec fn adjoins(self, k: (i32, i32)) -> bool {
        &&& self.x - 1 <= k.0 <= self.x + 1
        &&& self.y - 1 <= k.1 <= self.y + 1
    }

    /// The cell of side `size` that holds `position`.
    pub fn of(position: Position, size: u32) -> (c: Self)
        requires
            size > 0,
        ensures
            c == Self::containing(position, size),
    {
        Self { x: cell_index(position.x, size), y: cell_index(position.y, size) }
    }

    /// Whether `other` lies in the block of three by three cells around
    /// `self`.
    pub fn is_near(&self, other: &QuadCoord) -> (near: bool)
        ensures
            near == self.adjoins(other.key()),
    {
        let dx: i64 = other.x as i64 - self.x as i64;
        let dy: i64 = other.y as i64 - self.y as i64;
        -1 <= dx && dx <= 1 && -1 <= dy && dy <= 1
    }
}

/// What the grid has decided to do about the size of its cells.
#[derive(PartialEq, Eq, Clone, Copy, Debug, Structural)]
pub enum Rebuild {
    KeepQuadSize,
    ShrinkQuadSize,
    GrowQuadSize,
}

/// The quotient of `p` by `size`, rounded toward negative infinity.
pub open spec fn floor_div(p: int, size: int) -> int {
    p / size
}

proof fn lemma_floor_div_negative(m: int, s: int)
    requires
        m >= 0,
        s > 0,
    ensures
        floor_div(-(m + 1), s) == -(m / s) - 1,
{
    let q = m / s;
    let r = m % s;
    vstd::arithmetic::div_mod::lemma_fundamental_div_mod(m, s);
    assert(-(m + 1) == (-q - 1) * s + (s - 1 - r)) by (nonlinear_arith)
        requires
            m == s * q + r,
    ;
    vstd::arithmetic::div_mod::lemma_fundamental_div_mod_converse(-(m + 1), s, -q - 1, s - 1 - r);
}

/// The index, along one axis, of the cell of side `size` that holds `p`.
pub fn cell_index(p: i32, size: u32) -> (q: i32)
    requires
        size > 0,
    ensures
        q == floor_div(p as int, size as int),
{
    let s: i64 = size as i64;
    if p >= 0 {
        let q: i64 = (p as i64) / s;
        assert(0 <= q <= p) by (nonlinear_arith)
            requires
                q == (p as int) / (s as int),
                p >= 0,
                s > 0,
        ;
        q as i32
    } else {
        let m: i64 = -((p as i64) + 1);
        let q: i64 = m / s;
        proof {
            lemma_floor_div_negative(m as int, s as int);
            assert(0 <= q <= m) by (nonlinear_arith)
                requires
                    q == (m as int) / (s as int),
                    m >= 0,
                    s > 0,
            ;
        }
        (-q - 1) as i32
    }
}

} // verus!
