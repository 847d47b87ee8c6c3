//! Points and vectors of the game plane.

use vstd::prelude::*;

verus! {

/// A point or a vector, both coordinates in millionths of a pixel (or, for a
/// draw scale, millionths of the sprite's own size).
#[derive(Clone, Copy, Debug, PartialEq, Eq, Structural)]
pub struct Vec2 {
    pub x: i64,
    pub y: i64,
}

/// The squared distance from `a` to `b` moved by `offset`.
pub open spec fn dist_sq(a: Vec2, b: Vec2, offset: Vec2) -> int {
    let dx = a.x - (b.x + offset.x);
    let dy = a.y - (b.y + offset.y);
    dx * dx + dy * dy
}

/// `a` lies strictly closer than `radius` to `b` moved by `offset`.
pub open spec fn is_near(a: Vec2, b: Vec2, offset: Vec2, radius: int) -> bool {
    radius > 0 && dist_sq(a, b, offset) < radius * radius
}

proof fn lemma_square_bounds(d: int, r: int)
    by (nonlinear_arith)
    requires
        0 < r,
    ensures
        (d >= r || d <= -r) ==> d * d >= r * r,
        -r < d < r ==> 0 <= d * d < r * r,
        0 <= d * d,
{
}

impl Vec2 {
    /// Both coordinates lie within `limit` of zero.
    pub open spec fn within(self, limit: int) -> bool {
        -limit <= self.x <= limit && -limit <= self.y <= limit
    }

    /// The squared Euclidean norm.
    pub open spec fn norm_sq(self) -> int {
        self.x * self.x + self.y * self.y
    }

    pub fn new(x: i64, y: i64) -> (v: Vec2)
        ensures
            v == (Vec2 { x, y }),
    {
        Vec2 { x, y }
    }

    /// The squared Euclidean norm, exactly.
    pub fn norm_squared(self) -> (r: u128)
        ensures
            r == self.norm_sq(),
    {
        let x: i128 = self.x as i128;
        let y: i128 = self.y as i128;
        assert(0 <= x * x <= 0x4000_0000_0000_0000_0000_0000_0000_0000) by (nonlinear_arith)
            requires
                -0x8000_0000_0000_0000 <= x <= 0x8000_0000_0000_0000,
        ;
        assert(0 <= y * y <= 0x4000_0000_0000_0000_0000_0000_0000_0000) by (nonlinear_arith)
            requires
                -0x8000_0000_0000_0000 <= y <= 0x8000_0000_0000_0000,
        ;
        ((x * x) as u128) + ((y * y) as u128)
    }

    /// This point moved by `(dx, dy)`.
    pub open spec fn shifted(self, dx: int, dy: int) -> Vec2 {
        Vec2 { x: (self.x + dx) as i64, y: (self.y + dy) as i64 }
    }

    /// This point moved by `(dx, dy)`.
    pub fn translate(self, dx: i64, dy: i64) -> (r: Vec2)
        requires
            i64::MIN <= self.x + dx <= i64::MAX,
            i64::MIN <= self.y + dy <= i64::MAX,
        ensures
            r == self.shifted(dx as int, dy as int),
            r.x == self.x + dx,
            r.y == self.y + dy,
    {
        Vec2 { x: self.x + dx, y: self.y + dy }
    }
}

/// Tells whether `a` lies strictly closer than `radius` to `b + offset`.
/// No coordinate is too large for it.
pub fn near(a: Vec2, b: Vec2, offset: Vec2, radius: i64) -> (r: bool)
    ensures
        r == is_near(a, b, offset, radius as int),
{
    if radius <= 0 {
        return false;
    }
    let reach: i128 = radius as i128;
    let dx: i128 = a.x as i128 - (b.x as i128 + offset.x as i128);
    let dy: i128 = a.y as i128 - (b.y as i128 + offset.y as i128);
    proof {
        lemma_square_bounds(dx as int, reach as int);
        lemma_square_bounds(dy as int, reach as int);
    }
    if dx >= reach || dx <= -reach || dy >= reach || dy <= -reach {
        return false;
    }
    assert(reach * reach <= 0x4000_0000_0000_0000_0000_0000_0000_0000) by (nonlinear_arith)
        requires
            0 < reach <= 0x8000_0000_0000_0000,
    ;
    dx * dx + dy * dy < reach * reach
}

} // verus!
