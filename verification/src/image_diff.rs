//! How far apart two images are.

use vstd::math::abs;
use vstd::prelude::*;

use crate::raster::{BoundingBox, Picture, Rgba, RgbaImage};

verus! {

/// The largest difference of two pixels: three colour channels of 255 steps each.
pub const MAX_PIXEL_DIFF: i64 = 765;

/// The distance of two channel values.
pub open spec fn channel_distance(a: u8, b: u8) -> int {
    if a < b {
        b - a
    } else {
        a - b
    }
}

/// The distance of two pixels: the sum over the colour channels, leaving alpha out.
pub open spec fn pixel_distance(a: Rgba, b: Rgba) -> int {
    channel_distance(a.r, b.r) + channel_distance(a.g, b.g) + channel_distance(a.b, b.b)
}

/// The sum of `f(x, y)` over `x0 <= x < x1`.
pub open spec fn row_sum(f: spec_fn(int, int) -> int, y: int, x0: int, x1: int) -> int
    decreases x1 - x0,
{
    if x1 <= x0 {
        0
    } else {
        row_sum(f, y, x0, x1 - 1) + f(x1 - 1, y)
    }
}

/// The sum of `f(x, y)` over `x0 <= x < x1` and `y0 <= y < y1`.
pub open spec fn area_sum(
    f: spec_fn(int, int) -> int,
    x0: int,
    x1: int,
    y0: int,
    y1: int,
) -> int
    decreases y1 - y0,
{
    if y1 <= y0 {
        0
    } else {
        area_sum(f, x0, x1, y0, y1 - 1) + row_sum(f, y1 - 1, x0, x1)
    }
}

/// The picture of this size in one colour.
pub open spec fn plain(width: int, height: int, color: Rgba) -> Picture {
    Picture::tabulate(width, height, |x: int, y: int| color)
}

/// The distance of two pictures, pixel by pixel.
pub open spec fn distance_at(a: Picture, b: Picture) -> spec_fn(int, int) -> int {
    |x: int, y: int| pixel_distance(a.pixel(x, y), b.pixel(x, y))
}

/// The distance of two pictures of one size: the sum over all pixels.
pub open spec fn distance(a: Picture, b: Picture) -> int {
    area_sum(distance_at(a, b), 0, a.width, 0, a.height)
}

/// The distance of two channel values.
fn channel_diff(a: u8, b: u8) -> (d: i64)
    ensures
        d == channel_distance(a, b),
        d == abs(a - b),
{
    if a < b {
        b as i64 - a as i64
    } else {
        a as i64 - b as i64
    }
}

/// The distance of two pixels, alpha left out.
fn pixel_diff(a: Rgba, b: Rgba) -> (d: i64)
    ensures
        d == pixel_distance(a, b),
        0 <= d <= MAX_PIXEL_DIFF,
{
    channel_diff(a.r, b.r) + channel_diff(a.g, b.g) + channel_diff(a.b, b.b)
}

/// The distance of two images of one size: the sum over all pixels of the distances of their
/// red, green and blue channels.
pub fn image_diff(a: &RgbaImage, b: &RgbaImage) -> (d: i64)
    requires
        a.wf(),
        b.wf(),
        a.width == b.width,
        a.height == b.height,
        MAX_PIXEL_DIFF * (a.width * a.height) <= i64::MAX,
    ensures
        d == distance(a@, b@),
        0 <= d <= MAX_PIXEL_DIFF * (a.width * a.height),
{
    let ghost f = distance_at(a@, b@);
    let ghost w: int = a.width as int;
    let ghost h: int = a.height as int;
    let mut total: i64 = 0;
    let mut y: u32 = 0;
    while y < a.height
        invariant
            y <= a.height,
            a.wf(),
            b.wf(),
            a.width == b.width,
            a.height == b.height,
            w == a.width,
            h == a.height,
            f == distance_at(a@, b@),
            MAX_PIXEL_DIFF * (w * h) <= i64::MAX,
            total == area_sum(f, 0, w, 0, y as int),
            0 <= total <= MAX_PIXEL_DIFF * (w * y),
        decreases a.height - y,
    {
        let ghost before = total;
        let mut x: u32 = 0;
        proof {
            lemma_next_row_fits(w, h, y as int);
        }
        while x < a.width
            invariant
                x <= a.width,
                y < a.height,
                a.wf(),
                b.wf(),
                a.width == b.width,
                a.height == b.height,
                w == a.width,
                f == distance_at(a@, b@),
                MAX_PIXEL_DIFF * (w * y) + MAX_PIXEL_DIFF * w <= i64::MAX,
                0 <= before <= MAX_PIXEL_DIFF * (w * y),
                total == before + row_sum(f, y as int, 0, x as int),
                before <= total <= before + MAX_PIXEL_DIFF * x,
            decreases a.width - x,
        {
            total = total + pixel_diff(a.get_pixel(x, y), b.get_pixel(x, y));
            x = x + 1;
        }
        y = y + 1;
    }
    total
}

/// Another row of pixel distances stays within the bound for the whole image.
proof fn lemma_next_row_fits(w: int, h: int, y: int)
    by (nonlinear_arith)
    requires
        0 <= w,
        0 <= y < h,
    ensures
        w * (y + 1) == w * y + w,
        w * (y + 1) <= w * h,
{
}

/// Sums of functions that agree on the row are equal.
proof fn lemma_row_sum_agree(
    f: spec_fn(int, int) -> int,
    g: spec_fn(int, int) -> int,
    y: int,
    x0: int,
    x1: int,
)
    requires
        forall|x: int| x0 <= x < x1 ==> #[trigger] f(x, y) == g(x, y),
    ensures
        row_sum(f, y, x0, x1) == row_sum(g, y, x0, x1),
    decreases x1 - x0,
{
    if x1 > x0 {
        lemma_row_sum_agree(f, g, y, x0, x1 - 1);
    }
}

/// Sums of functions that agree on the area are equal.
pub proof fn lemma_area_sum_agree(
    f: spec_fn(int, int) -> int,
    g: spec_fn(int, int) -> int,
    x0: int,
    x1: int,
    y0: int,
    y1: int,
)
    requires
        forall|x: int, y: int|
            x0 <= x < x1 && y0 <= y < y1 ==> #[trigger] f(x, y) == g(x, y),
    ensures
        area_sum(f, x0, x1, y0, y1) == area_sum(g, x0, x1, y0, y1),
    decreases y1 - y0,
{
    if y1 > y0 {
        lemma_area_sum_agree(f, g, x0, x1, y0, y1 - 1);
        lemma_row_sum_agree(f, g, y1 - 1, x0, x1);
    }
}

/// The sum of a difference is the difference of the sums, on a row.
proof fn lemma_row_sum_minus(
    f: spec_fn(int, int) -> int,
    g: spec_fn(int, int) -> int,
    y: int,
    x0: int,
    x1: int,
)
    ensures
        row_sum(|x: int, yy: int| f(x, yy) - g(x, yy), y, x0, x1) == row_sum(f, y, x0, x1)
            - row_sum(g, y, x0, x1),
    decreases x1 - x0,
{
    if x1 > x0 {
        lemma_row_sum_minus(f, g, y, x0, x1 - 1);
    }
}

/// The sum of a difference is the difference of the sums.
proof fn lemma_area_sum_minus(
    f: spec_fn(int, int) -> int,
    g: spec_fn(int, int) -> int,
    x0: int,
    x1: int,
    y0: int,
    y1: int,
)
    ensures
        area_sum(|x: int, y: int| f(x, y) - g(x, y), x0, x1, y0, y1) == area_sum(
            f,
            x0,
            x1,
            y0,
            y1,
        ) - area_sum(g, x0, x1, y0, y1),
    decreases y1 - y0,
{
    if y1 > y0 {
        lemma_area_sum_minus(f, g, x0, x1, y0, y1 - 1);
        lemma_row_sum_minus(f, g, y1 - 1, x0, x1);
    }
}

/// Moving the row of a function that moves along changes no sum.
proof fn lemma_row_sum_shift(
    f: spec_fn(int, int) -> int,
    dx: int,
    dy: int,
    y: int,
    x0: int,
    x1: int,
)
    ensures
        row_sum(|x: int, yy: int| f(x + dx, yy + dy), y, x0, x1) == row_sum(
            f,
            y + dy,
            x0 + dx,
            x1 + dx,
        ),
    decreases x1 - x0,
{
    if x1 > x0 {
        lemma_row_sum_shift(f, dx, dy, y, x0, x1 - 1);
    }
}

/// Moving the area of a function that moves along changes no sum.
proof fn lemma_area_sum_shift(
    f: spec_fn(int, int) -> int,
    dx: int,
    dy: int,
    x0: int,
    x1: int,
    y0: int,
    y1: int,
)
    ensures
        area_sum(|x: int, y: int| f(x + dx, y + dy), x0, x1, y0, y1) == area_sum(
            f,
            x0 + dx,
            x1 + dx,
            y0 + dy,
            y1 + dy,
        ),
    decreases y1 - y0,
{
    if y1 > y0 {
        lemma_area_sum_shift(f, dx, dy, x0, x1, y0, y1 - 1);
        lemma_row_sum_shift(f, dx, dy, y1 - 1, x0, x1);
    }
}

/// A row of zeros sums to zero.
proof fn lemma_row_sum_zero(f: spec_fn(int, int) -> int, y: int, x0: int, x1: int)
    requires
        forall|x: int| x0 <= x < x1 ==> #[trigger] f(x, y) == 0,
    ensures
        row_sum(f, y, x0, x1) == 0,
    decreases x1 - x0,
{
    if x1 > x0 {
        lemma_row_sum_zero(f, y, x0, x1 - 1);
    }
}

/// An area of zeros sums to zero.
proof fn lemma_area_sum_zero(
    f: spec_fn(int, int) -> int,
    x0: int,
    x1: int,
    y0: int,
    y1: int,
)
    requires
        forall|x: int, y: int| x0 <= x < x1 && y0 <= y < y1 ==> #[trigger] f(x, y) == 0,
    ensures
        area_sum(f, x0, x1, y0, y1) == 0,
    decreases y1 - y0,
{
    if y1 > y0 {
        lemma_area_sum_zero(f, x0, x1, y0, y1 - 1);
        lemma_row_sum_zero(f, y1 - 1, x0, x1);
    }
}

/// A row that is zero outside `x0 <= x < x1` sums to what it sums to there.
proof fn lemma_row_sum_inside(
    f: spec_fn(int, int) -> int,
    y: int,
    w: int,
    x0: int,
    x1: int,
)
    requires
        0 <= x0 <= x1 <= w,
        forall|x: int| 0 <= x < w && !(x0 <= x < x1) ==> #[trigger] f(x, y) == 0,
    ensures
        row_sum(f, y, 0, w) == row_sum(f, y, x0, x1),
    decreases w,
{
    if x1 < w {
        lemma_row_sum_inside(f, y, w - 1, x0, x1);
    } else {
        lemma_row_sum_inside_upto(f, y, x0, x1);
    }
}

/// A row that is zero before `x0` sums up to `x1` to what it sums to from `x0` on.
proof fn lemma_row_sum_inside_upto(f: spec_fn(int, int) -> int, y: int, x0: int, x1: int)
    requires
        0 <= x0 <= x1,
        forall|x: int| 0 <= x < x0 ==> #[trigger] f(x, y) == 0,
    ensures
        row_sum(f, y, 0, x1) == row_sum(f, y, x0, x1),
    decreases x1 - x0,
{
    if x0 == x1 {
        lemma_row_sum_zero(f, y, 0, x0);
    } else {
        lemma_row_sum_inside_upto(f, y, x0, x1 - 1);
    }
}

/// A function that is zero outside `x0 <= x < x1`, `y0 <= y < y1` sums to what it sums to there.
proof fn lemma_area_sum_inside(
    f: spec_fn(int, int) -> int,
    w: int,
    h: int,
    x0: int,
    x1: int,
    y0: int,
    y1: int,
)
    requires
        0 <= x0 <= x1 <= w,
        0 <= y0 <= y1 <= h,
        forall|x: int, y: int|
            0 <= x < w && 0 <= y < h && !(x0 <= x < x1 && y0 <= y < y1) ==> #[trigger] f(x, y)
                == 0,
    ensures
        area_sum(f, 0, w, 0, h) == area_sum(f, x0, x1, y0, y1),
    decreases h,
{
    if y0 == y1 {
        lemma_area_sum_zero(f, 0, w, 0, h);
    } else if y1 < h {
        lemma_area_sum_inside(f, w, h - 1, x0, x1, y0, y1);
        lemma_row_sum_zero(f, h - 1, 0, w);
    } else {
        lemma_row_sum_inside(f, h - 1, w, x0, x1);
        if y0 == y1 - 1 {
            lemma_area_sum_zero(f, 0, w, 0, h - 1);
            assert(area_sum(f, x0, x1, y0, y1 - 1) == 0);
        } else {
            lemma_area_sum_inside(f, w, h - 1, x0, x1, y0, y1 - 1);
        }
    }
}

/// Replacing a picture by one that agrees with it outside `area` changes the distance to any
/// target by exactly what it changes inside `area`.
pub proof fn lemma_distance_change_is_local(
    target: Picture,
    before: Picture,
    after: Picture,
    area: BoundingBox,
)
    requires
        target.wf(),
        target.holds(area),
        forall|x: int, y: int|
            target.has(x, y) && !(area.x <= x < area.x + area.width && area.y <= y < area.y
                + area.height) ==> #[trigger] before.pixel(x, y) == after.pixel(x, y),
    ensures
        distance(target, after) - distance(target, before) == distance(
            target.crop(area),
            after.crop(area),
        ) - distance(target.crop(area), before.crop(area)),
{
    let f = distance_at(target, after);
    let g = distance_at(target, before);
    let change = |x: int, y: int| f(x, y) - g(x, y);
    let (x0, y0) = (area.x as int, area.y as int);
    let (w, h) = (area.width as int, area.height as int);
    lemma_area_sum_minus(f, g, 0, target.width, 0, target.height);
    lemma_area_sum_minus(f, g, x0, x0 + w, y0, y0 + h);
    lemma_area_sum_inside(change, target.width, target.height, x0, x0 + w, y0, y0 + h);
    lemma_crop_distance(target, after, area);
    lemma_crop_distance(target, before, area);
}

/// The distance of two cropped pictures is the sum over the area they were cropped to.
proof fn lemma_crop_distance(a: Picture, b: Picture, area: BoundingBox)
    ensures
        distance(a.crop(area), b.crop(area)) == area_sum(
            distance_at(a, b),
            area.x as int,
            area.x + area.width,
            area.y as int,
            area.y + area.height,
        ),
{
    let f = distance_at(a, b);
    let (x0, y0) = (area.x as int, area.y as int);
    let (w, h) = (area.width as int, area.height as int);
    let moved = |x: int, y: int| f(x + x0, y + y0);
    lemma_area_sum_shift(f, x0, y0, 0, w, 0, h);
    lemma_area_sum_agree(distance_at(a.crop(area), b.crop(area)), moved, 0, w, 0, h);
}

/// A row of pixel distances is not negative and at most the largest distance for each pixel.
proof fn lemma_row_sum_bounds(a: Picture, b: Picture, y: int, x1: int)
    requires
        0 <= x1,
    ensures
        0 <= row_sum(distance_at(a, b), y, 0, x1) <= MAX_PIXEL_DIFF * x1,
    decreases x1,
{
    if x1 > 0 {
        lemma_row_sum_bounds(a, b, y, x1 - 1);
    }
}

/// Rows of pixel distances are not negative and at most the largest distance for each pixel.
proof fn lemma_area_sum_bounds(a: Picture, b: Picture, w: int, y1: int)
    requires
        0 <= w,
        0 <= y1,
    ensures
        0 <= area_sum(distance_at(a, b), 0, w, 0, y1) <= MAX_PIXEL_DIFF * (w * y1),
    decreases y1,
{
    if y1 > 0 {
        lemma_area_sum_bounds(a, b, w, y1 - 1);
        lemma_row_sum_bounds(a, b, y1 - 1, w);
        lemma_next_row_fits(w, y1, y1 - 1);
    }
}

/// A row of pictures of one colour each.
proof fn lemma_row_of_plain(w: int, h: int, a: Rgba, b: Rgba, y: int, x1: int)
    requires
        0 <= x1 <= w,
        0 <= y < h,
    ensures
        row_sum(distance_at(plain(w, h, a), plain(w, h, b)), y, 0, x1) == x1 * pixel_distance(a, b),
    decreases x1,
{
    let d = pixel_distance(a, b);
    if x1 > 0 {
        lemma_row_of_plain(w, h, a, b, y, x1 - 1);
        assert((x1 - 1) * d + d == x1 * d) by (nonlinear_arith);
    } else {
        assert(0 * d == 0);
    }
}

/// Rows of pictures of one colour each.
proof fn lemma_rows_of_plain(w: int, h: int, a: Rgba, b: Rgba, y1: int)
    requires
        0 <= w,
        0 <= y1 <= h,
    ensures
        area_sum(distance_at(plain(w, h, a), plain(w, h, b)), 0, w, 0, y1) == y1 * (w
            * pixel_distance(a, b)),
    decreases y1,
{
    let d = w * pixel_distance(a, b);
    if y1 > 0 {
        lemma_rows_of_plain(w, h, a, b, y1 - 1);
        lemma_row_of_plain(w, h, a, b, y1 - 1, w);
        assert((y1 - 1) * d + d == y1 * d) by (nonlinear_arith);
    } else {
        assert(0 * d == 0);
    }
}

/// Pictures of one colour each are as far apart as the colours, once for each pixel.
pub proof fn law_distance_of_plain_pictures(w: int, h: int, a: Rgba, b: Rgba)
    requires
        0 <= w,
        0 <= h,
    ensures
        distance(plain(w, h, a), plain(w, h, b)) == h * (w * pixel_distance(a, b)),
{
    lemma_rows_of_plain(w, h, a, b, h);
}

/// A distance is not negative, and at most 255 for each colour channel of each pixel.
pub proof fn law_distance_bounds(a: Picture, b: Picture)
    requires
        a.wf(),
    ensures
        0 <= distance(a, b) <= MAX_PIXEL_DIFF * (a.width * a.height),
{
    lemma_area_sum_bounds(a, b, a.width, a.height);
}

/// A picture is at distance zero from itself.
pub proof fn law_distance_to_itself(a: Picture)
    ensures
        distance(a, a) == 0,
{
    lemma_area_sum_zero(distance_at(a, a), 0, a.width, 0, a.height);
}

/// The distance is the same both ways.
pub proof fn law_distance_symmetric(a: Picture, b: Picture)
    requires
        a.width == b.width,
        a.height == b.height,
    ensures
        distance(a, b) == distance(b, a),
{
    lemma_area_sum_agree(distance_at(a, b), distance_at(b, a), 0, a.width, 0, a.height);
}

} // verus!
