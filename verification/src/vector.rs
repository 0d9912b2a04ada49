//! Whole-number vectors. Every length in this crate is a whole number of one
//! unit that the host chooses; a squared length is counted in that unit squared.

use vstd::prelude::*;

verus! {

/// Where an entity is.
#[derive(PartialEq, Eq, Clone, Copy, Debug, Structural)]
pub struct Position {
    pub x: i32,
    pub y: i32,
}

/// A displacement or a direction. Its length carries meaning only where a
/// function says so.
#[derive(PartialEq, Eq, Clone, Copy, Debug, Structural)]
pub struct Vector2 {
    pub x: i64,
    pub y: i64,
}

/// `dx * dx + dy * dy`.
pub open spec fn norm_squared(dx: int, dy: int) -> int {
    dx * dx + dy * dy
}

proof fn lemma_square_bound(d: int, limit: int)
    requires
        -limit <= d <= limit,
    ensures
        0 <= d * d <= limit * limit,
{
    assert(0 <= d * d <= limit * limit) by (nonlinear_arith)
        requires
            -limit <= d <= limit,
    ;
}

impl Position {
    pub fn new(x: i32, y: i32) -> (p: Self)
        ensures
            p.x == x,
            p.y == y,
    {
        Self { x, y }
    }

    /// The displacement from `self` to `to`.
    pub open spec fn offset_to(self, to: Position) -> Vector2 {
        Vector2 { x: (to.x - self.x) as i64, y: (to.y - self.y) as i64 }
    }

    /// The squared distance between `self` and `to`.
    pub open spec fn distance_squared_to(self, to: Position) -> int {
        norm_squared(to.x - self.x, to.y - self.y)
    }

    /// The displacement from `self` to `to`.
    pub fn delta(&self, to: &Position) -> (d: Vector2)
        ensures
            d == self.offset_to(*to),
            d.x == to.x - self.x,
            d.y == to.y - self.y,
    {
        Vector2 { x: to.x as i64 - self.x as i64, y: to.y as i64 - self.y as i64 }
    }

    /// The squared distance between `self` and `to`.
    pub fn distance_squared(&self, to: &Position) -> (d: u128)
        ensures
            d == self.distance_squared_to(*to),
    {
        self.delta(to).length_squared()
    }
}

impl Vector2 {
    pub open spec fn zero() -> Self {
        Vector2 { x: 0, y: 0 }
    }

    pub fn new(x: i64, y: i64) -> (v: Self)
        ensures
            v.x == x,
            v.y == y,
    {
        Self { x, y }
    }

    /// The vector without length.
    pub fn origin() -> (v: Self)
        ensures
            v == Self::zero(),
    {
        Self { x: 0, y: 0 }
    }

    pub fn length_squared(&self) -> (d: u128)
        ensures
            d == norm_squared(self.x as int, self.y as int),
    {
        let x: i128 = self.x as i128;
        let y: i128 = self.y as i128;
        proof {
            lemma_square_bound(x as int, 0x8000_0000_0000_0000);
            lemma_square_bound(y as int, 0x8000_0000_0000_0000);
        }
        let xx: u128 = (x * x) as u128;
        let yy: u128 = (y * y) as u128;
        xx + yy
    }
}

} // verus!
