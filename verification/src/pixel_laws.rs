//! What holds of images, in terms of their bytes: where the pixels are, what cropping copies, and
//! how the distance of two images moves with their bytes.

use vstd::math::abs;
use vstd::prelude::*;

use crate::image_diff::{
    area_sum, channel_distance, distance, distance_at, law_distance_of_plain_pictures,
    lemma_distance_change_is_local, pixel_distance, plain, row_sum,
};
use crate::raster::{BoundingBox, Picture, Rgba, RgbaImage};

verus! {

/// Byte `c` of the pixel at column `x` of row `y` comes after four bytes for each pixel before it.
proof fn lemma_byte_index(w: int, h: int, x: int, y: int)
    by (nonlinear_arith)
    requires
        0 <= x < w,
        0 <= y < h,
    ensures
        y * (4 * w) + 4 * x == 4 * (y * w + x),
        0 <= 4 * (y * w + x),
        4 * (y * w + x) + 4 <= h * (4 * w),
{
}

/// Two pixels that differ have different bytes.
proof fn lemma_pixels_apart(w: int, x: int, y: int, xx: int, yy: int)
    by (nonlinear_arith)
    requires
        0 <= x < w,
        0 <= xx < w,
        y * w + x == yy * w + xx,
    ensures
        x == xx,
        y == yy,
{
}

/// An image is whole if its buffer holds four bytes for each pixel, and the bytes of a row can be
/// counted.
pub proof fn law_whole_image_has_four_bytes_per_pixel(image: RgbaImage)
    ensures
        image.wf() <==> 4 * image.width <= usize::MAX && image.data@.len() == 4 * (image.width
            * image.height),
{
    assert(image.height * (4 * image.width) == 4 * (image.width * image.height))
        by (nonlinear_arith);
}

/// An image shows its bytes: row by row, four for each pixel, in the order red, green, blue and
/// alpha.
pub proof fn law_image_shows_its_bytes(image: RgbaImage, x: int, y: int)
    requires
        0 <= x < image.width,
        0 <= y < image.height,
    ensures
        image@.width == image.width,
        image@.height == image.height,
        image@.rows.len() == image.height,
        image@.rows[y].len() == image.width,
        image@.rows[y][x].r == image.data@[4 * (y * image.width + x)],
        image@.rows[y][x].g == image.data@[4 * (y * image.width + x) + 1],
        image@.rows[y][x].b == image.data@[4 * (y * image.width + x) + 2],
        image@.rows[y][x].a == image.data@[4 * (y * image.width + x) + 3],
{
    lemma_byte_index(image.width as int, image.height as int, x, y);
}

/// A picture made by a rule has at column `x` of row `y` what the rule says.
pub proof fn law_tabulated_pixels(
    width: int,
    height: int,
    f: spec_fn(int, int) -> Rgba,
    x: int,
    y: int,
)
    requires
        0 <= x < width,
        0 <= y < height,
    ensures
        Picture::tabulate(width, height, f).width == width,
        Picture::tabulate(width, height, f).height == height,
        Picture::tabulate(width, height, f).rows.len() == height,
        Picture::tabulate(width, height, f).rows[y].len() == width,
        Picture::tabulate(width, height, f).rows[y][x] == f(x, y),
        Picture::tabulate(width, height, f).pixel(x, y) == f(x, y),
{
}

/// A box that does not reach beyond the last column or row can be cropped to, and no other. The
/// part has the size of the box, and its pixels are those of the picture at the same distance from
/// the corner of the box.
pub proof fn law_crop_copies_the_pixels_of_the_box(p: Picture, area: BoundingBox, x: int, y: int)
    requires
        0 <= x < area.width,
        0 <= y < area.height,
    ensures
        p.holds(area) <==> area.x + area.width <= p.width && area.y + area.height <= p.height,
        p.crop(area).width == area.width,
        p.crop(area).height == area.height,
        p.crop(area).rows.len() == area.height,
        p.crop(area).rows[y].len() == area.width,
        p.crop(area).rows[y][x] == p.rows[area.y + y][area.x + x],
{
}

/// The distance of two channel values is how far one lies above the other.
pub proof fn law_channel_distance(a: u8, b: u8)
    ensures
        a <= b ==> channel_distance(a, b) == b - a,
        b <= a ==> channel_distance(a, b) == a - b,
{
}

/// The distance of two pixels is the sum of the absolute differences of red, green and blue. Alpha
/// does not count.
pub proof fn law_pixel_distance_sums_the_channels(a: Rgba, b: Rgba)
    ensures
        pixel_distance(a, b) == abs(a.r - b.r) + abs(a.g - b.g) + abs(a.b - b.b),
{
}

/// Two pictures of one colour each: every pixel counts the absolute differences of the three
/// channels.
pub proof fn law_distance_of_one_colour_pictures(w: int, h: int, a: Rgba, b: Rgba)
    requires
        0 <= w,
        0 <= h,
    ensures
        distance(plain(w, h, a), plain(w, h, b)) == (w * h) * (abs(a.r - b.r) + abs(a.g - b.g)
            + abs(a.b - b.b)),
{
    law_distance_of_plain_pictures(w, h, a, b);
    let d = pixel_distance(a, b);
    assert(h * (w * d) == (w * h) * d) by (nonlinear_arith);
}

/// A box of one pixel.
proof fn lemma_distance_of_one_pixel(a: Picture, b: Picture, x: u32, y: u32)
    ensures
        distance(
            a.crop(BoundingBox { x, y, width: 1, height: 1 }),
            b.crop(BoundingBox { x, y, width: 1, height: 1 }),
        ) == pixel_distance(a.rows[y as int][x as int], b.rows[y as int][x as int]),
{
    let area = BoundingBox { x, y, width: 1, height: 1 };
    let f = distance_at(a.crop(area), b.crop(area));
    reveal_with_fuel(area_sum, 2);
    reveal_with_fuel(row_sum, 2);
    assert(area_sum(f, 0, 1, 0, 1) == f(0, 0));
}

/// Changing one pixel of a picture moves its distance to a target by as much as the pixel moves
/// away from the target's: the absolute differences of its channels afterwards, less those before.
pub proof fn law_distance_moves_with_one_pixel(
    target: Picture,
    before: Picture,
    after: Picture,
    x: u32,
    y: u32,
)
    requires
        target.wf(),
        before.wf(),
        after.wf(),
        target.width == before.width == after.width,
        target.height == before.height == after.height,
        x < target.width,
        y < target.height,
        forall|xx: int, yy: int|
            0 <= xx < target.width && 0 <= yy < target.height && (xx != x || yy != y)
                ==> #[trigger] before.rows[yy][xx] == after.rows[yy][xx],
    ensures
        ({
            let goal = target.rows[y as int][x as int];
            let old_pixel = before.rows[y as int][x as int];
            let new_pixel = after.rows[y as int][x as int];
            distance(target, after) - distance(target, before) == abs(goal.r - new_pixel.r) + abs(
                goal.g - new_pixel.g,
            ) + abs(goal.b - new_pixel.b) - abs(goal.r - old_pixel.r) - abs(goal.g - old_pixel.g)
                - abs(goal.b - old_pixel.b)
        }),
{
    let area = BoundingBox { x, y, width: 1, height: 1 };
    lemma_distance_change_is_local(target, before, after, area);
    lemma_distance_of_one_pixel(target, before, x, y);
    lemma_distance_of_one_pixel(target, after, x, y);
}

/// Changing one byte of an image moves its distance to a target by as much as the byte moves away
/// from the target's byte. A byte of alpha does not count.
pub proof fn law_distance_moves_with_one_byte(
    target: RgbaImage,
    before: RgbaImage,
    after: RgbaImage,
    x: u32,
    y: u32,
    c: int,
    value: u8,
)
    requires
        target.wf(),
        before.wf(),
        after.wf(),
        target.width == before.width == after.width,
        target.height == before.height == after.height,
        x < target.width,
        y < target.height,
        0 <= c < 4,
        after.data@ == before.data@.update(4 * (y * target.width + x) + c, value),
    ensures
        ({
            let k = 4 * (y * target.width + x) + c;
            distance(target@, after@) - distance(target@, before@) == if c == 3 {
                0
            } else {
                abs(target.data@[k] - value) - abs(target.data@[k] - before.data@[k])
            }
        }),
{
    let (w, h) = (target.width as int, target.height as int);
    let k = 4 * (y * w + x) + c;
    lemma_byte_index(w, h, x as int, y as int);
    assert forall|xx: int, yy: int|
        0 <= xx < w && 0 <= yy < h && (xx != x || yy != y) implies #[trigger] before@.rows[yy][xx]
        == after@.rows[yy][xx] by {
        law_image_shows_its_bytes(before, xx, yy);
        law_image_shows_its_bytes(after, xx, yy);
        lemma_byte_index(w, h, xx, yy);
        if yy * w + xx == y * w + x {
            lemma_pixels_apart(w, x as int, y as int, xx, yy);
        }
    }
    law_image_shows_its_bytes(target, x as int, y as int);
    law_image_shows_its_bytes(before, x as int, y as int);
    law_image_shows_its_bytes(after, x as int, y as int);
    law_distance_moves_with_one_pixel(target@, before@, after@, x, y);
}

/// A row of distances is at least each of them.
proof fn lemma_row_reaches(a: Picture, b: Picture, y: int, x1: int, x: int)
    requires
        0 <= x1,
    ensures
        0 <= row_sum(distance_at(a, b), y, 0, x1),
        0 <= x < x1 ==> pixel_distance(a.pixel(x, y), b.pixel(x, y)) <= row_sum(
            distance_at(a, b),
            y,
            0,
            x1,
        ),
    decreases x1,
{
    if x1 > 0 {
        lemma_row_reaches(a, b, y, x1 - 1, x);
    }
}

/// Rows of distances are together at least each of them.
proof fn lemma_area_reaches(a: Picture, b: Picture, w: int, y1: int, x: int, y: int)
    requires
        0 <= x < w,
        0 <= y1,
    ensures
        0 <= area_sum(distance_at(a, b), 0, w, 0, y1),
        0 <= y < y1 ==> pixel_distance(a.pixel(x, y), b.pixel(x, y)) <= area_sum(
            distance_at(a, b),
            0,
            w,
            0,
            y1,
        ),
    decreases y1,
{
    if y1 > 0 {
        lemma_area_reaches(a, b, w, y1 - 1, x, y);
        lemma_row_reaches(a, b, y1 - 1, w, x);
    }
}

/// Two pictures are at least as far apart as any two of their pixels in one place, so pictures at
/// distance zero agree there in red, green and blue.
pub proof fn law_distance_sees_every_pixel(a: Picture, b: Picture, x: int, y: int)
    requires
        0 <= x < a.width,
        0 <= y < a.height,
    ensures
        distance(a, b) >= abs(a.rows[y][x].r - b.rows[y][x].r) + abs(
            a.rows[y][x].g - b.rows[y][x].g,
        ) + abs(a.rows[y][x].b - b.rows[y][x].b),
        distance(a, b) == 0 ==> {
            &&& a.rows[y][x].r == b.rows[y][x].r
            &&& a.rows[y][x].g == b.rows[y][x].g
            &&& a.rows[y][x].b == b.rows[y][x].b
        },
{
    lemma_area_reaches(a, b, a.width, a.height, x, y);
}

/// The distance of pictures obeys the triangle inequality, row by row.
proof fn lemma_row_triangle(a: Picture, b: Picture, c: Picture, y: int, x1: int)
    requires
        0 <= x1,
    ensures
        row_sum(distance_at(a, c), y, 0, x1) <= row_sum(distance_at(a, b), y, 0, x1) + row_sum(
            distance_at(b, c),
            y,
            0,
            x1,
        ),
    decreases x1,
{
    if x1 > 0 {
        lemma_row_triangle(a, b, c, y, x1 - 1);
    }
}

/// The distance of pictures obeys the triangle inequality, for the first rows.
proof fn lemma_area_triangle(a: Picture, b: Picture, c: Picture, w: int, y1: int)
    requires
        0 <= w,
        0 <= y1,
    ensures
        area_sum(distance_at(a, c), 0, w, 0, y1) <= area_sum(distance_at(a, b), 0, w, 0, y1)
            + area_sum(distance_at(b, c), 0, w, 0, y1),
    decreases y1,
{
    if y1 > 0 {
        lemma_area_triangle(a, b, c, w, y1 - 1);
        lemma_row_triangle(a, b, c, y1 - 1, w);
    }
}

/// No detour is shorter: the distance of two pictures is at most the sum of their distances to a
/// third.
pub proof fn law_distance_triangle(a: Picture, b: Picture, c: Picture)
    requires
        a.wf(),
        a.width == b.width,
        a.height == b.height,
    ensures
        distance(a, c) <= distance(a, b) + distance(b, c),
{
    lemma_area_triangle(a, b, c, a.width, a.height);
}

} // verus!
