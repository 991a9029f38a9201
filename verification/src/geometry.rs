//! Positions, velocities, and integer distance primitives.
//!
//! All world coordinates are integers. Euclidean distance is computed as the
//! integer square root (floor of the real square root) of the sum of squared
//! per-axis differences, which is exactly the truncated-to-integer distance
//! the decision algorithms compare against.

use vstd::prelude::*;

verus! {

/// A position in the arena.
#[derive(Clone, Copy, Debug, PartialEq, Eq, Structural)]
pub struct Coordinate {
    pub x: i32,
    pub y: i32,
}

/// A velocity, in world units per turn.
#[derive(Clone, Copy, Debug, PartialEq, Eq, Structural)]
pub struct SpeedVector {
    pub vx: i32,
    pub vy: i32,
}

/// Squared Euclidean distance between two positions.
pub open spec fn sq_dist(a: Coordinate, b: Coordinate) -> int {
    (a.x - b.x) * (a.x - b.x) + (a.y - b.y) * (a.y - b.y)
}

/// Squared magnitude of a velocity.
pub open spec fn sq_speed(v: SpeedVector) -> int {
    v.vx * v.vx + v.vy * v.vy
}

/// `r` is the integer square root of `n`: the floor of the real square root.
pub open spec fn is_isqrt(n: int, r: int) -> bool {
    0 <= r && r * r <= n && n < (r + 1) * (r + 1)
}

/// The integer square root of `n`, as a spec-level value.
pub open spec fn isqrt_spec(n: int) -> int {
    choose|r: int| is_isqrt(n, r)
}

/// Every nonnegative integer has an integer square root.
pub proof fn lemma_isqrt_exists(n: int)
    requires
        n >= 0,
    ensures
        is_isqrt(n, isqrt_spec(n)),
    decreases n,
{
    if n == 0 {
        assert(is_isqrt(0, 0));
    } else {
        lemma_isqrt_exists(n - 1);
        let r = isqrt_spec(n - 1);
        if n < (r + 1) * (r + 1) {
            assert(is_isqrt(n, r));
        } else {
            assert(n == (r + 1) * (r + 1));
            assert((r + 1) * (r + 1) < (r + 2) * (r + 2)) by (nonlinear_arith)
                requires r >= 0;
            assert(is_isqrt(n, r + 1));
        }
    }
}

/// The integer square root is unique.
pub proof fn lemma_isqrt_unique(n: int, r1: int, r2: int)
    requires
        is_isqrt(n, r1),
        is_isqrt(n, r2),
    ensures
        r1 == r2,
{
    if r1 < r2 {
        assert((r1 + 1) * (r1 + 1) <= r2 * r2) by (nonlinear_arith)
            requires 0 <= r1, 0 <= r2, r1 + 1 <= r2;
    }
    if r2 < r1 {
        assert((r2 + 1) * (r2 + 1) <= r1 * r1) by (nonlinear_arith)
            requires 0 <= r1, 0 <= r2, r2 + 1 <= r1;
    }
}

/// Any witness of `is_isqrt` is the spec-level integer square root.
pub proof fn lemma_isqrt_agrees(n: int, r: int)
    requires
        is_isqrt(n, r),
    ensures
        r == isqrt_spec(n),
{
    lemma_isqrt_exists(n);
    lemma_isqrt_unique(n, r, isqrt_spec(n));
}

/// Integer square root bound for the loop below: `hi` starts above the root.
const ISQRT_HI: u128 = 0x2_0000_0000;

/// Integer square root by binary search. The input bound keeps the search
/// window's squares within `u128`.
fn isqrt(n: u128) -> (r: u64)
    requires
        n < 0x4_0000_0000_0000_0000,
    ensures
        is_isqrt(n as int, r as int),
{
    let mut lo: u128 = 0;
    let mut hi: u128 = ISQRT_HI;
    assert(ISQRT_HI * ISQRT_HI == 0x4_0000_0000_0000_0000) by (nonlinear_arith);
    while lo + 1 < hi
        invariant
            0 <= lo < hi <= ISQRT_HI,
            lo * lo <= n,
            n < hi * hi,
        decreases hi - lo,
    {
        let mid: u128 = lo + (hi - lo) / 2;
        assert(mid * mid <= ISQRT_HI * ISQRT_HI) by (nonlinear_arith)
            requires 0 <= mid <= ISQRT_HI;
        if mid * mid <= n {
            lo = mid;
        } else {
            hi = mid;
        }
    }
    assert(hi == lo + 1);
    lo as u64
}

impl Coordinate {
    /// Build a position from its components.
    pub fn new(x: i32, y: i32) -> (c: Coordinate)
        ensures
            c.x == x,
            c.y == y,
    {
        Coordinate { x, y }
    }

    /// Euclidean distance to `other`, truncated to an integer: the floor of
    /// `sqrt((self.x - other.x)^2 + (self.y - other.y)^2)`.
    pub fn euclidean_distance(&self, other: &Coordinate) -> (d: u64)
        ensures
            is_isqrt(sq_dist(*self, *other), d as int),
    {
        let dx: i128 = self.x as i128 - other.x as i128;
        let dy: i128 = self.y as i128 - other.y as i128;
        assert(dx * dx < 0x2_0000_0000_0000_0000 && dx * dx >= 0) by (nonlinear_arith)
            requires -0x1_0000_0000 < dx < 0x1_0000_0000;
        assert(dy * dy < 0x2_0000_0000_0000_0000 && dy * dy >= 0) by (nonlinear_arith)
            requires -0x1_0000_0000 < dy < 0x1_0000_0000;
        let s: u128 = (dx * dx) as u128 + (dy * dy) as u128;
        isqrt(s)
    }
}

impl SpeedVector {
    /// Build a velocity from its components.
    pub fn new(vx: i32, vy: i32) -> (v: SpeedVector)
        ensures
            v.vx == vx,
            v.vy == vy,
    {
        SpeedVector { vx, vy }
    }

    /// Magnitude of the velocity, truncated to an integer: the floor of
    /// `sqrt(vx^2 + vy^2)`.
    pub fn absolute_speed(&self) -> (s: u64)
        ensures
            is_isqrt(sq_speed(*self), s as int),
    {
        let vx: i128 = self.vx as i128;
        let vy: i128 = self.vy as i128;
        assert(vx * vx < 0x2_0000_0000_0000_0000 && vx * vx >= 0) by (nonlinear_arith)
            requires -0x1_0000_0000 < vx < 0x1_0000_0000;
        assert(vy * vy < 0x2_0000_0000_0000_0000 && vy * vy >= 0) by (nonlinear_arith)
            requires -0x1_0000_0000 < vy < 0x1_0000_0000;
        let s: u128 = (vx * vx) as u128 + (vy * vy) as u128;
        isqrt(s)
    }
}

/// Distance is symmetric, nonnegative, and zero from a point to itself:
/// any truncated distances computed for `(a, b)` and `(b, a)` agree and are
/// nonnegative, and one computed for `(a, a)` is zero.
pub proof fn lemma_distance_properties(a: Coordinate, b: Coordinate, d_ab: int, d_ba: int, d_aa: int)
    requires
        is_isqrt(sq_dist(a, b), d_ab),
        is_isqrt(sq_dist(b, a), d_ba),
        is_isqrt(sq_dist(a, a), d_aa),
    ensures
        d_ab == d_ba,
        d_ab >= 0,
        d_aa == 0,
{
    assert(sq_dist(a, b) == sq_dist(b, a)) by (nonlinear_arith);
    lemma_isqrt_unique(sq_dist(a, b), d_ab, d_ba);
    assert(sq_dist(a, a) == 0);
    lemma_isqrt_unique(0, d_aa, 0);
}

} // verus!
