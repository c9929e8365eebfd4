//! Which pixels a filled circle covers.

use vstd::prelude::*;

use crate::drawing::{covers, exact, filled_circle, magnitude, rows_reach};

verus! {

/// Whether the point `(dx, dy)` from the centre belongs to a filled circle of this radius: the
/// square of its distance, less its longer side, is less than the square of the radius. That is,
/// its longer side is at most the length, rounded, that a true circle has there.
pub open spec fn in_disc(dx: int, dy: int, radius: int) -> bool {
    let (a, b) = (magnitude(dx), magnitude(dy));
    let longer = if a < b {
        b
    } else {
        a
    };
    if radius <= 0 {
        radius == 0 && dx == 0 && dy == 0
    } else {
        a * a + b * b - longer < radius * radius
    }
}

/// A product of numbers that are not negative grows with them.
proof fn lemma_square_grows(a: int, b: int)
    by (nonlinear_arith)
    requires
        0 <= a <= b,
    ensures
        a * a <= b * b,
        a * a - a <= b * b - b,
{
}

/// The squares of neighbours.
proof fn lemma_square_steps(v: int)
    by (nonlinear_arith)
    ensures
        (v + 1) * (v + 1) == v * v + 2 * v + 1,
        (v - 1) * (v - 1) == v * v - 2 * v + 1,
{
}

/// While it draws, a circle is at `(x, y)` where `y` is the length that is nearest to the circle at
/// distance `x` from its axis.
spec fn on_circle(x: int, y: int, p: int, r: int) -> bool {
    &&& 0 <= x <= y
    &&& p == (x + 1) * (x + 1) + y * y - y - r * r
    &&& x * x + y * y - y < r * r
    &&& r * r <= x * x + y * y + y
}

/// At `(x, y)`, the row at distance `x` reaches to `y`, no less and no more.
proof fn lemma_row_at_x(x: int, y: int, p: int, r: int, dx: int, dy: int)
    requires
        0 < r,
        on_circle(x, y, p, r),
        magnitude(dy) == x,
    ensures
        in_disc(dx, dy, r) <==> magnitude(dx) <= y,
{
    let (a, b) = (magnitude(dx), magnitude(dy));
    if a <= y {
        if a < b {
            lemma_square_grows(a, b - 1);
            lemma_square_grows(b, y);
            lemma_square_steps(b);
        } else {
            lemma_square_grows(a, y);
        }
    } else {
        lemma_square_grows(y + 1, a);
        lemma_square_steps(y);
    }
}

/// At `(x, y)`, once the next step goes inwards, the row at distance `y` reaches to `x`, no less
/// and no more.
proof fn lemma_row_at_y(x: int, y: int, p: int, r: int, dx: int, dy: int)
    requires
        0 < r,
        on_circle(x, y, p, r),
        magnitude(dy) == y,
        x < y,
    ensures
        magnitude(dx) <= x ==> in_disc(dx, dy, r),
        p >= 0 ==> (in_disc(dx, dy, r) <==> magnitude(dx) <= x),
{
    let (a, b) = (magnitude(dx), magnitude(dy));
    if a <= x {
        lemma_square_grows(a, x);
    } else if a <= b {
        lemma_square_grows(x + 1, a);
    } else {
        lemma_square_grows(y + 1, a);
        lemma_square_steps(y);
        lemma_square_grows(x, y);
    }
}

/// From `(x, y)` on, the rows reach exactly the points of the circle at distances from `x` to `y`.
proof fn lemma_rows_reach(x: int, y: int, p: int, r: int, dx: int, dy: int)
    requires
        0 < r,
        on_circle(x, y, p, r),
    ensures
        rows_reach(x, y, p, dx, dy) <==> in_disc(dx, dy, r) && x <= magnitude(dy) <= y,
    decreases y - x,
{
    let b = magnitude(dy);
    lemma_square_steps(x + 1);
    lemma_square_steps(x);
    lemma_square_steps(y);
    if b == x {
        lemma_row_at_x(x, y, p, r, dx, dy);
    }
    if b == y && x < y {
        lemma_row_at_y(x, y, p, r, dx, dy);
    }
    let (next_y, next_p) = if p < 0 {
        (y, p + 2 * (x + 1) + 1)
    } else {
        (y - 1, p + 2 * ((x + 1) - (y - 1)) + 1)
    };
    if x + 1 <= next_y {
        assert(on_circle(x + 1, next_y, next_p, r));
        lemma_rows_reach(x + 1, next_y, next_p, r, dx, dy);
    } else {
        assert(!rows_reach(x + 1, next_y, next_p, dx, dy));
    }
}

/// A point of a circle is at most the radius away in both directions.
pub proof fn lemma_disc_within_radius(dx: int, dy: int, r: int)
    requires
        in_disc(dx, dy, r),
    ensures
        magnitude(dx) <= r,
        magnitude(dy) <= r,
{
    let (a, b) = (magnitude(dx), magnitude(dy));
    let longer = if a < b {
        b
    } else {
        a
    };
    let shorter = if a < b {
        a
    } else {
        b
    };
    if r > 0 && longer > r {
        lemma_square_grows(r + 1, longer);
        lemma_square_steps(r);
        lemma_square_grows(0, shorter);
    }
}

/// A filled circle of exact coordinates covers the points of its disc and no others.
pub proof fn law_circle_covers_its_disc(cx: int, cy: int, radius: int, x: int, y: int)
    requires
        exact(cx, cy, radius),
    ensures
        covers(cx, cy, radius, filled_circle(cx, cy, radius), x, y) <==> in_disc(
            x - cx,
            y - cy,
            radius,
        ),
{
    let (dx, dy) = (x - cx, y - cy);
    if radius > 0 {
        lemma_square_steps(0);
        lemma_rows_reach(0, radius, 1 - radius, radius, dx, dy);
        if in_disc(dx, dy, radius) {
            lemma_disc_within_radius(dx, dy, radius);
        }
    } else if radius == 0 {
        assert(!rows_reach(1, -1, 6, dx, dy));
    }
}

/// A filled circle of exact coordinates covers its centre, covers every point nearer to the centre
/// than the radius, and covers no point further away than the radius in either direction.
pub proof fn law_circle_covers_what_is_near(cx: int, cy: int, radius: int, x: int, y: int)
    requires
        exact(cx, cy, radius),
    ensures
        radius >= 0 ==> covers(cx, cy, radius, filled_circle(cx, cy, radius), cx, cy),
        radius >= 0 && (x - cx) * (x - cx) + (y - cy) * (y - cy) < radius * radius ==> covers(
            cx,
            cy,
            radius,
            filled_circle(cx, cy, radius),
            x,
            y,
        ),
        covers(cx, cy, radius, filled_circle(cx, cy, radius), x, y) ==> -radius <= x - cx <= radius
            && -radius <= y - cy <= radius,
{
    let (dx, dy) = (x - cx, y - cy);
    law_circle_covers_its_disc(cx, cy, radius, x, y);
    law_circle_covers_its_disc(cx, cy, radius, cx, cy);
    assert(magnitude(dx) * magnitude(dx) == dx * dx && magnitude(dy) * magnitude(dy) == dy * dy)
        by (nonlinear_arith)
        requires
            magnitude(dx) == dx || magnitude(dx) == -dx,
            magnitude(dy) == dy || magnitude(dy) == -dy,
    ;
    assert(0 <= dx * dx && 0 <= dy * dy) by (nonlinear_arith);
    if radius > 0 {
        lemma_square_grows(1, radius);
    }
    if in_disc(dx, dy, radius) {
        lemma_disc_within_radius(dx, dy, radius);
    }
}

} // verus!
