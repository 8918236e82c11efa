//! Whether a circle and an upright box touch.

use vstd::prelude::*;
use crate::units::{magnitude, COORD_LIMIT, RADIUS_LIMIT};

verus! {

/// The point `(x, y)` lies in the box centred at `(bx, by)` that reaches `hw`
/// to either side and `hh` up and down.
pub open spec fn in_box(x: int, y: int, bx: int, by: int, hw: int, hh: int) -> bool {
    &&& bx - hw <= x <= bx + hw
    &&& by - hh <= y <= by + hh
}

/// The point `(x, y)` lies in the disc of radius `r` about `(cx, cy)`.
pub open spec fn in_disc(x: int, y: int, cx: int, cy: int, r: int) -> bool {
    (x - cx) * (x - cx) + (y - cy) * (y - cy) <= r * r
}

/// The disc and the box have a point in common, their borders included.
pub open spec fn disc_meets_box(cx: int, cy: int, r: int, bx: int, by: int, hw: int, hh: int)
    -> bool {
    exists|x: int, y: int| in_box(x, y, bx, by, hw, hh) && #[trigger] in_disc(x, y, cx, cy, r)
}

/// How far `c` lies outside the interval of half length `h` about `b`.
pub open spec fn excess(c: int, b: int, h: int) -> int {
    if magnitude(c - b) > h {
        magnitude(c - b) - h
    } else {
        0
    }
}

/// The point of the interval of half length `h` about `b` that is nearest to `c`.
pub open spec fn nearest(c: int, b: int, h: int) -> int {
    if c < b - h {
        b - h
    } else if c > b + h {
        b + h
    } else {
        c
    }
}

proof fn lemma_square_grows(a: int, b: int)
    by (nonlinear_arith)
    requires
        0 <= a <= b,
    ensures
        a * a <= b * b,
{
}

proof fn lemma_square_of_magnitude(a: int)
    by (nonlinear_arith)
    ensures
        a * a == magnitude(a) * magnitude(a),
        a * a >= 0,
{
}

/// No point of the interval is nearer to `c` than the excess.
proof fn lemma_excess_is_least(x: int, c: int, b: int, h: int)
    requires
        h >= 0,
        b - h <= x <= b + h,
    ensures
        excess(c, b, h) * excess(c, b, h) <= (x - c) * (x - c),
        magnitude(nearest(c, b, h) - c) == excess(c, b, h),
        b - h <= nearest(c, b, h) <= b + h,
{
    lemma_square_of_magnitude(x - c);
    lemma_square_grows(excess(c, b, h), magnitude(x - c));
}

/// The disc meets the box exactly when the point of the box nearest to the
/// disc's centre lies in the disc.
pub proof fn lemma_meets_by_excess(cx: int, cy: int, r: int, bx: int, by: int, hw: int, hh: int)
    requires
        r >= 0,
        hw >= 0,
        hh >= 0,
    ensures
        disc_meets_box(cx, cy, r, bx, by, hw, hh) <==> excess(cx, bx, hw) * excess(cx, bx, hw)
            + excess(cy, by, hh) * excess(cy, by, hh) <= r * r,
{
    let ex = excess(cx, bx, hw);
    let ey = excess(cy, by, hh);
    if ex * ex + ey * ey <= r * r {
        let nx = nearest(cx, bx, hw);
        let ny = nearest(cy, by, hh);
        lemma_excess_is_least(bx, cx, bx, hw);
        lemma_excess_is_least(by, cy, by, hh);
        lemma_square_of_magnitude(nx - cx);
        lemma_square_of_magnitude(ny - cy);
        assert(in_box(nx, ny, bx, by, hw, hh));
        assert(in_disc(nx, ny, cx, cy, r));
    }
    if disc_meets_box(cx, cy, r, bx, by, hw, hh) {
        let (x, y) = choose|x: int, y: int|
            in_box(x, y, bx, by, hw, hh) && #[trigger] in_disc(x, y, cx, cy, r);
        lemma_excess_is_least(x, cx, bx, hw);
        lemma_excess_is_least(y, cy, by, hh);
    }
}

/// Where the disc meets the box, its centre is no further from the box's
/// centre, along either axis, than the half extent and the radius together.
pub proof fn lemma_meeting_is_near(cx: int, cy: int, r: int, bx: int, by: int, hw: int, hh: int)
    requires
        r >= 0,
        hw >= 0,
        hh >= 0,
        disc_meets_box(cx, cy, r, bx, by, hw, hh),
    ensures
        magnitude(cx - bx) <= hw + r,
        magnitude(cy - by) <= hh + r,
{
    lemma_meets_by_excess(cx, cy, r, bx, by, hw, hh);
    let ex = excess(cx, bx, hw);
    let ey = excess(cy, by, hh);
    lemma_square_of_magnitude(ex);
    lemma_square_of_magnitude(ey);
    if ex > r {
        lemma_square_grows(r + 1, ex);
        assert((r + 1) * (r + 1) == r * r + 2 * r + 1) by (nonlinear_arith);
    }
    if ey > r {
        lemma_square_grows(r + 1, ey);
        assert((r + 1) * (r + 1) == r * r + 2 * r + 1) by (nonlinear_arith);
    }
}

/// Tells whether the disc of radius `r` about `(cx, cy)` and the box about
/// `(bx, by)` with half extents `hw` and `hh` have a point in common.
pub fn disc_hits_box(cx: i64, cy: i64, r: i64, bx: i64, by: i64, hw: i64, hh: i64) -> (hit: bool)
    requires
        -2 * COORD_LIMIT <= cx <= 2 * COORD_LIMIT,
        -2 * COORD_LIMIT <= cy <= 2 * COORD_LIMIT,
        -2 * COORD_LIMIT <= bx <= 2 * COORD_LIMIT,
        -2 * COORD_LIMIT <= by <= 2 * COORD_LIMIT,
        0 <= r <= 2 * RADIUS_LIMIT,
        0 <= hw <= COORD_LIMIT,
        0 <= hh <= COORD_LIMIT,
    ensures
        hit == disc_meets_box(cx as int, cy as int, r as int, bx as int, by as int, hw as int, hh as int),
{
    let dx: i64 = if cx < bx { bx - cx } else { cx - bx };
    let dy: i64 = if cy < by { by - cy } else { cy - by };
    let ex: i64 = if dx > hw { dx - hw } else { 0 };
    let ey: i64 = if dy > hh { dy - hh } else { 0 };
    proof {
        lemma_meets_by_excess(cx as int, cy as int, r as int, bx as int, by as int, hw as int, hh as int);
        lemma_square_of_magnitude(ex as int);
        lemma_square_of_magnitude(ey as int);
        if ex > r {
            lemma_square_grows(r + 1, ex as int);
            assert((r + 1) * (r + 1) == r * r + 2 * r + 1) by (nonlinear_arith);
        }
        if ey > r {
            lemma_square_grows(r + 1, ey as int);
            assert((r + 1) * (r + 1) == r * r + 2 * r + 1) by (nonlinear_arith);
        }
    }
    if ex > r || ey > r {
        false
    } else {
        proof {
            lemma_square_grows(ex as int, r as int);
            lemma_square_grows(ey as int, r as int);
            lemma_square_grows(r as int, 2_000_000);
            assert(0 <= ex * ex <= r * r <= 4_000_000_000_000);
            assert(0 <= ey * ey <= r * r);
        }
        ex * ex + ey * ey <= r * r
    }
}

} // verus!
