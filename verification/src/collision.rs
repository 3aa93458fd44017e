//! Circle-circle collision: the detection predicate the pairwise sweep uses,
//! and the integer square root that aiming needs.

use vstd::prelude::*;

verus! {

use crate::components::Position;
use crate::{POS_BOUND, SIZE_BOUND};

/// The squared Euclidean distance between two points.
pub open spec fn spec_sq_dist(p1: Position, p2: Position) -> int {
    (p1.x - p2.x) * (p1.x - p2.x) + (p1.y - p2.y) * (p1.y - p2.y)
}

/// Two circles collide exactly when the distance between their centres is at
/// most the sum of their radii; the boundary case counts as a collision.
/// (Stated on squares, which is equivalent for non-negative radii.)
pub open spec fn spec_collides(p1: Position, r1: int, p2: Position, r2: int) -> bool {
    spec_sq_dist(p1, p2) <= (r1 + r2) * (r1 + r2)
}

/// Collision does not depend on the order of the pair.
pub proof fn lemma_collides_symmetric(p1: Position, r1: int, p2: Position, r2: int)
    ensures
        spec_collides(p1, r1, p2, r2) == spec_collides(p2, r2, p1, r1),
{
    assert((p1.x - p2.x) * (p1.x - p2.x) == (p2.x - p1.x) * (p2.x - p1.x)) by (nonlinear_arith);
    assert((p1.y - p2.y) * (p1.y - p2.y) == (p2.y - p1.y) * (p2.y - p1.y)) by (nonlinear_arith);
}

/// Report whether the circle at `p1` with radius `r1` overlaps the circle at
/// `p2` with radius `r2`, boundary included.
pub fn circles_collide(p1: Position, r1: i64, p2: Position, r2: i64) -> (b: bool)
    requires
        p1.wf(),
        p2.wf(),
        0 <= r1 <= SIZE_BOUND,
        0 <= r2 <= SIZE_BOUND,
    ensures
        b == spec_collides(p1, r1 as int, p2, r2 as int),
{
    let dx: i64 = p1.x - p2.x;
    let dy: i64 = p1.y - p2.y;
    let rs: i64 = r1 + r2;
    proof {
        assert(dx * dx <= 4 * POS_BOUND * POS_BOUND && dx * dx >= 0) by (nonlinear_arith)
            requires -2 * POS_BOUND <= dx <= 2 * POS_BOUND;
        assert(dy * dy <= 4 * POS_BOUND * POS_BOUND && dy * dy >= 0) by (nonlinear_arith)
            requires -2 * POS_BOUND <= dy <= 2 * POS_BOUND;
        assert(rs * rs <= 4 * SIZE_BOUND * SIZE_BOUND && rs * rs >= 0) by (nonlinear_arith)
            requires 0 <= rs <= 2 * SIZE_BOUND;
    }
    dx * dx + dy * dy <= rs * rs
}

/// The squared distance between two points, as a runtime value.
pub fn sq_dist(p1: Position, p2: Position) -> (d: i64)
    requires
        p1.wf(),
        p2.wf(),
    ensures
        d == spec_sq_dist(p1, p2),
        0 <= d <= 8 * POS_BOUND * POS_BOUND,
{
    let dx: i64 = p1.x - p2.x;
    let dy: i64 = p1.y - p2.y;
    proof {
        assert(dx * dx <= 4 * POS_BOUND * POS_BOUND && dx * dx >= 0) by (nonlinear_arith)
            requires -2 * POS_BOUND <= dx <= 2 * POS_BOUND;
        assert(dy * dy <= 4 * POS_BOUND * POS_BOUND && dy * dy >= 0) by (nonlinear_arith)
            requires -2 * POS_BOUND <= dy <= 2 * POS_BOUND;
    }
    dx * dx + dy * dy
}

/// The integer square root of a non-negative number: the greatest `r` with
/// `r * r <= n`.
pub open spec fn spec_isqrt(n: int) -> int {
    choose|r: int| 0 <= r && #[trigger] (r * r) <= n && n < (r + 1) * (r + 1)
}

/// At most one non-negative integer squares to at most `n` while its
/// successor squares past `n`.
pub proof fn lemma_isqrt_unique(n: int, r1: int, r2: int)
    requires
        0 <= r1,
        r1 * r1 <= n < (r1 + 1) * (r1 + 1),
        0 <= r2,
        r2 * r2 <= n < (r2 + 1) * (r2 + 1),
    ensures
        r1 == r2,
{
    assert(r1 == r2) by (nonlinear_arith)
        requires
            0 <= r1,
            r1 * r1 <= n < (r1 + 1) * (r1 + 1),
            0 <= r2,
            r2 * r2 <= n < (r2 + 1) * (r2 + 1);
}

/// The integer square root: the greatest `r` with `r * r <= n`.
pub fn int_sqrt(n: u64) -> (r: u64)
    requires
        n < 0x4000_0000_0000_0000,
    ensures
        r * r <= n < (r + 1) * (r + 1),
        r == spec_isqrt(n as int),
{
    let mut r: u64 = 0;
    loop
        invariant
            n < 0x4000_0000_0000_0000,
            r * r <= n,
            r < 0x8000_0000,
        ensures
            r * r <= n < (r + 1) * (r + 1),
        decreases n - r,
    {
        let next: u64 = r + 1;
        proof {
            assert(next * next <= 0x4000_0000_0000_0000) by (nonlinear_arith)
                requires 0 < next <= 0x8000_0000;
        }
        if next * next > n {
            break;
        }
        proof {
            assert(next < 0x8000_0000 && next <= n) by (nonlinear_arith)
                requires 1 <= next, next * next <= n, n < 0x4000_0000_0000_0000;
        }
        r = next;
    }
    proof {
        let ri = r as int;
        let ni = n as int;
        assert(0 <= ri && ri * ri <= ni && ni < (ri + 1) * (ri + 1));
        lemma_isqrt_unique(ni, ri, spec_isqrt(ni));
    }
    r
}

} // verus!
