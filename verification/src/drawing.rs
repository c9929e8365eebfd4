//! Drawing and resizing, which the crates `imageproc` and `image` do.

use vstd::prelude::*;

use crate::raster::{Picture, Rgba, RgbaImage};

verus! {

/// The points that `imageproc`'s filled circle of the given centre and radius covers.
pub uninterp spec fn filled_circle(cx: int, cy: int, radius: int) -> Set<(int, int)>;

/// The absolute value of `v`.
pub open spec fn magnitude(v: int) -> int {
    if v < 0 {
        -v
    } else {
        v
    }
}

/// Whether single-precision numbers hold every coordinate of the circle exactly.
pub open spec fn exact(cx: int, cy: int, radius: int) -> bool {
    radius < 0 || (-0x100_0000 <= cx - radius && cx + radius <= 0x100_0000 && -0x100_0000 <= cy
        - radius && cy + radius <= 0x100_0000)
}

/// Whether a row drawn at step `(x, y, p)` of a filled circle, or at a later step, reaches the
/// point `(dx, dy)` from the centre. Each step draws the rows `y` above and below the centre,
/// `x` to each side, and the rows `x` above and below it, `y` to each side.
pub open spec fn rows_reach(x: int, y: int, p: int, dx: int, dy: int) -> bool
    decreases y - x + 2,
{
    x <= y && ({
        ||| magnitude(dx) <= x && magnitude(dy) == y
        ||| magnitude(dx) <= y && magnitude(dy) == x
        ||| if p < 0 {
            rows_reach(x + 1, y, p + 2 * (x + 1) + 1, dx, dy)
        } else {
            rows_reach(x + 1, y - 1, p + 2 * ((x + 1) - (y - 1)) + 1, dx, dy)
        }
    })
}

/// Whether a circle covers `(x, y)`, given what it covers where its coordinates are not exact.
pub open spec fn covers(
    cx: int,
    cy: int,
    radius: int,
    inexact: Set<(int, int)>,
    x: int,
    y: int,
) -> bool {
    if exact(cx, cy, radius) {
        rows_reach(0, radius, 1 - radius, x - cx, y - cy)
    } else {
        inexact.contains((x, y))
    }
}

/// The picture with a circle drawn over it, given what the circle covers where its coordinates
/// are not exact. A picture with more than `i32::MAX` rows or columns stays as it is.
pub open spec fn painted(
    p: Picture,
    cx: int,
    cy: int,
    radius: int,
    color: Rgba,
    inexact: Set<(int, int)>,
) -> Picture {
    Picture::tabulate(
        p.width,
        p.height,
        |x: int, y: int|
            if p.width <= i32::MAX && p.height <= i32::MAX && covers(
                cx,
                cy,
                radius,
                inexact,
                x,
                y,
            ) {
                color
            } else {
                p.pixel(x, y)
            },
    )
}

/// The picture with the filled circle drawn over it.
pub open spec fn drawn(p: Picture, cx: int, cy: int, radius: int, color: Rgba) -> Picture {
    painted(p, cx, cy, radius, color, filled_circle(cx, cy, radius))
}

/// Whether the circle can be drawn without leaving the range of the drawing arithmetic.
pub open spec fn drawable(cx: int, cy: int, radius: int) -> bool {
    &&& -0x7fff_fffe <= radius <= 0x4000_0000
    &&& radius >= 0 ==> {
        &&& i32::MIN <= cx - radius && cx + radius < 0x7fff_ffc0
        &&& i32::MIN <= cy - radius && cy + radius <= i32::MAX
    }
}

/// A copy of the image with a filled circle drawn over it.
///
/// Calls `imageproc::drawing::draw_filled_circle`. Trusted: the result has the size of the
/// canvas; a pixel that the circle covers has the given color, any other pixel is as before. While
/// all coordinates are exact in single precision, the circle covers what the rows of the midpoint
/// algorithm reach. Otherwise the points covered depend on the centre and the radius alone, and
/// which they are is left to the name `filled_circle`.
#[verifier::external_body]
pub(crate) fn draw_filled_circle(
    canvas: &RgbaImage,
    center: (i32, i32),
    radius: i32,
    color: Rgba,
) -> (out: RgbaImage)
    requires
        canvas.wf(),
        drawable(center.0 as int, center.1 as int, radius as int),
    ensures
        out.wf(),
        out.width == canvas.width,
        out.height == canvas.height,
        out@ == painted(
            canvas@,
            center.0 as int,
            center.1 as int,
            radius as int,
            color,
            filled_circle(center.0 as int, center.1 as int, radius as int),
        ),
{
    let source = image::RgbaImage::from_raw(canvas.width, canvas.height, canvas.data.clone())
        .unwrap();
    let pixel = image::Rgba([color.r, color.g, color.b, color.a]);
    let out = imageproc::drawing::draw_filled_circle(&source, center, radius, pixel);
    RgbaImage { width: out.width(), height: out.height(), data: out.into_raw() }
}

/// The buffer of an image resized by the nearest pixel.
pub uninterp spec fn nearest(
    width: int,
    height: int,
    data: Seq<u8>,
    new_width: int,
    new_height: int,
) -> Seq<u8>;

/// Whether the image can be resized: the bytes of a row can be counted, and the buffers can be
/// allocated: none but the result's where the size stays, else also one of four single-precision
/// numbers for each pixel of an image that has the new height and the old width.
pub open spec fn resizable(width: int, height: int, new_width: int, new_height: int) -> bool {
    &&& 4 * new_width <= usize::MAX
    &&& (new_width == width && new_height == height) || (16 * (width * new_height) <= isize::MAX
        && new_height * (4 * new_width) <= isize::MAX)
}

/// Whether an image can be resized, for callers that cannot prove it.
pub fn can_resize(width: u32, height: u32, new_width: u32, new_height: u32) -> (ok: bool)
    ensures
        ok == resizable(width as int, height as int, new_width as int, new_height as int),
{
    proof {
        lemma_buffers_fit(width as int, new_width as int, new_height as int);
    }
    let sampled: u128 = 16 * (width as u128 * new_height as u128);
    let resized: u128 = new_height as u128 * (4 * new_width as u128);
    4 * new_width as u128 <= usize::MAX as u128 && ((new_width == width && new_height == height)
        || (sampled <= isize::MAX as u128 && resized <= isize::MAX as u128))
}

/// The sizes of the buffers that resizing takes fit 128 bits.
proof fn lemma_buffers_fit(width: int, new_width: int, new_height: int)
    by (nonlinear_arith)
    requires
        0 <= width <= u32::MAX,
        0 <= new_width <= u32::MAX,
        0 <= new_height <= u32::MAX,
    ensures
        0 <= width * new_height <= u64::MAX,
        0 <= new_height * (4 * new_width) <= 4 * u64::MAX,
{
}

/// The image resized to `width` times `height` pixels.
///
/// Calls `image::imageops::resize` with the filter `Nearest`. Trusted: the result has the size
/// asked for, and its bytes are a function of the image and that size, named `nearest`.
#[verifier::external_body]
pub(crate) fn resize_nearest(source: &RgbaImage, width: u32, height: u32) -> (out: RgbaImage)
    requires
        source.wf(),
        resizable(source.width as int, source.height as int, width as int, height as int),
    ensures
        out.wf(),
        out.width == width,
        out.height == height,
        out.data@ == nearest(
            source.width as int,
            source.height as int,
            source.data@,
            width as int,
            height as int,
        ),
{
    let buffer = image::RgbaImage::from_raw(source.width, source.height, source.data.clone())
        .unwrap();
    let filter = image::imageops::FilterType::Nearest;
    let out = image::imageops::resize(&buffer, width, height, filter);
    RgbaImage { width: out.width(), height: out.height(), data: out.into_raw() }
}

} // verus!
