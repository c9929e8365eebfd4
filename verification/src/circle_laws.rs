//! What holds of circles, in plain numbers: which pixels they paint, where their boxes lie, how they
//! change, and what their scores are.

use vstd::math::{abs, max, min};
use vstd::prelude::*;

use crate::circle_shape::law_circle_covers_its_disc;
use crate::drawing::{drawable, filled_circle, resizable};
use crate::image_diff::{distance, MAX_PIXEL_DIFF};
use crate::random::Draw;
use crate::random_shape::{
    can_score_placed, clamped, fresh_spans, mutated_color, mutation_spans, placed_score,
    score_fits, small_score, Disc, FreshDraws, Mutation, MutationDraws, RandomCircle, RandomShape,
};
use crate::raster::{BoundingBox, Picture, Rgba, RgbaImage};
use crate::shape_laws::{is_canvas, is_exact, law_scoring_algorithms_agree};

verus! {

/// A number is clamped to the nearest end of the range if it lies outside, and stays otherwise.
pub proof fn law_clamping(v: int, low: int, high: int)
    requires
        low <= high,
    ensures
        low <= v <= high ==> clamped(v, low, high) == v,
        v < low ==> clamped(v, low, high) == low,
        v > high ==> clamped(v, low, high) == high,
{
}

/// Whether `n` is `v`, or the end of the range of `i32` that is nearest to it.
pub open spec fn is_nearest_i32(n: i32, v: int) -> bool {
    n == max(i32::MIN as int, min(i32::MAX as int, v))
}

/// On an image `scale` times as large, every coordinate of a circle and its radius are `scale`
/// times as large, as far as they can be represented. Seen from the corner of a box they are less
/// by the position of the corner. The colour stays.
pub proof fn law_scaling_multiplies(circle: RandomCircle, area: BoundingBox, scale: u32)
    ensures
        is_nearest_i32(circle.disc_at(scale as int).center.0, circle.center.0 * scale),
        is_nearest_i32(circle.disc_at(scale as int).center.1, circle.center.1 * scale),
        is_nearest_i32(circle.disc_at(scale as int).radius, circle.radius * scale),
        circle.disc_at(scale as int).color == circle.color,
        is_nearest_i32(
            circle.disc_inside(area, scale as int).center.0,
            circle.center.0 * scale - area.x,
        ),
        is_nearest_i32(
            circle.disc_inside(area, scale as int).center.1,
            circle.center.1 * scale - area.y,
        ),
        is_nearest_i32(circle.disc_inside(area, scale as int).radius, circle.radius * scale),
        circle.disc_inside(area, scale as int).color == circle.color,
{
}

/// A disc paints the pixels near its centre and no others, and keeps the size of the picture. A
/// pixel is near if the square of its distance, less its longer side, is less than the square of
/// the radius; a disc of radius 0 paints its centre, and one of negative radius nothing.
pub proof fn law_disc_paints_what_is_near(disc: Disc, p: Picture, x: int, y: int)
    requires
        0 <= x < p.width <= i32::MAX,
        0 <= y < p.height <= i32::MAX,
        disc.radius < 0 || {
            &&& -0x100_0000 <= disc.center.0 - disc.radius
            &&& disc.center.0 + disc.radius <= 0x100_0000
            &&& -0x100_0000 <= disc.center.1 - disc.radius
            &&& disc.center.1 + disc.radius <= 0x100_0000
        },
    ensures
        disc.over(p).width == p.width,
        disc.over(p).height == p.height,
        disc.over(p).rows.len() == p.height,
        disc.over(p).rows[y].len() == p.width,
        ({
            let (dx, dy) = (abs(x - disc.center.0) as int, abs(y - disc.center.1) as int);
            let near = if disc.radius > 0 {
                dx * dx + dy * dy - max(dx, dy) < disc.radius * disc.radius
            } else {
                disc.radius == 0 && dx == 0 && dy == 0
            };
            disc.over(p).rows[y][x] == if near {
                disc.color
            } else {
                p.rows[y][x]
            }
        }),
{
    law_circle_covers_its_disc(
        disc.center.0 as int,
        disc.center.1 as int,
        disc.radius as int,
        x,
        y,
    );
}

/// A disc whose coordinates single precision cannot hold paints the points that belong to a filled
/// circle of its centre and radius, and no others.
pub proof fn law_distant_disc_paints_its_circle(disc: Disc, p: Picture, x: int, y: int)
    requires
        0 <= x < p.width <= i32::MAX,
        0 <= y < p.height <= i32::MAX,
        disc.radius >= 0,
        disc.center.0 - disc.radius < -0x100_0000 || disc.center.0 + disc.radius > 0x100_0000
            || disc.center.1 - disc.radius < -0x100_0000 || disc.center.1 + disc.radius
            > 0x100_0000,
    ensures
        disc.over(p).width == p.width,
        disc.over(p).height == p.height,
        disc.over(p).rows[y][x] == if filled_circle(
            disc.center.0 as int,
            disc.center.1 as int,
            disc.radius as int,
        ).contains((x, y)) {
            disc.color
        } else {
            p.rows[y][x]
        },
{
}

/// Drawn on an image `scale` times as large, a circle paints the pixels near its centre and no
/// others, with its centre and its radius `scale` times as large.
pub proof fn law_circle_paints_what_is_near(
    circle: RandomCircle,
    p: Picture,
    scale: u32,
    x: int,
    y: int,
)
    requires
        0 <= x < p.width <= i32::MAX,
        0 <= y < p.height <= i32::MAX,
        -0x100_0000 <= circle.center.0 * scale - circle.radius * scale,
        circle.center.0 * scale + circle.radius * scale <= 0x100_0000,
        -0x100_0000 <= circle.center.1 * scale - circle.radius * scale,
        circle.center.1 * scale + circle.radius * scale <= 0x100_0000,
        0 <= circle.radius * scale,
    ensures
        circle.over(p, scale).width == p.width,
        circle.over(p, scale).height == p.height,
        ({
            let (dx, dy) = (
                abs(x - circle.center.0 * scale) as int,
                abs(y - circle.center.1 * scale) as int,
            );
            let radius = circle.radius * scale;
            let near = if radius > 0 {
                dx * dx + dy * dy - max(dx, dy) < radius * radius
            } else {
                dx == 0 && dy == 0
            };
            circle.over(p, scale).rows[y][x] == if near {
                circle.color
            } else {
                p.rows[y][x]
            }
        }),
{
    law_disc_paints_what_is_near(circle.disc_at(scale as int), p, x, y);
}

/// A circle of negative radius paints nothing.
pub proof fn law_circle_of_negative_radius_paints_nothing(
    circle: RandomCircle,
    p: Picture,
    scale: u32,
    x: int,
    y: int,
)
    requires
        0 <= x < p.width <= i32::MAX,
        0 <= y < p.height <= i32::MAX,
        circle.radius < 0,
        scale > 0,
    ensures
        circle.over(p, scale).rows[y][x] == p.rows[y][x],
{
    assert(circle.radius * scale < 0) by (nonlinear_arith)
        requires
            circle.radius < 0,
            scale > 0,
    ;
    law_disc_paints_what_is_near(circle.disc_at(scale as int), p, x, y);
}

/// Drawing inside the box is drawing the circle, seen from the corner of the box, on the part of
/// the picture that the box holds.
pub proof fn law_drawing_inside_the_box(circle: RandomCircle, p: Picture, scale: u32)
    requires
        circle.bounds(scale) is Some,
    ensures
        ({
            let area = circle.bounds(scale)->0;
            circle.over_inside(p, scale) == circle.disc_inside(area, scale as int).over(
                p.crop(area),
            )
        }),
{
}

/// At its own scale, the box of a circle reaches one pixel beyond the circle on every side, but not
/// beyond the image. There is none if the circle, with that margin, lies beside the image.
pub proof fn law_box_has_a_margin_of_one_pixel(circle: RandomCircle)
    requires
        1 <= circle.imgx,
        1 <= circle.imgy,
    ensures
        ({
            let (cx, cy) = (circle.center.0 as int, circle.center.1 as int);
            let r = circle.radius as int;
            &&& circle.bounds(1) is None <==> cx - r - 1 >= circle.imgx || cy - r - 1
                >= circle.imgy || cx + r + 1 < 0 || cy + r + 1 < 0
            &&& circle.bounds(1) matches Some(area) ==> {
                &&& area.x == max(0, cx - r - 1)
                &&& area.y == max(0, cy - r - 1)
                &&& area.x + area.width == max(area.x as int, min(circle.imgx as int, cx + r + 2))
                &&& area.y + area.height == max(area.y as int, min(circle.imgy as int, cy + r + 2))
            }
        }),
{
}

/// On an image `scale` times as large the box is `scale` times as large, as far as that can be
/// represented, and there is one exactly if there is one at the circle's own scale.
pub proof fn law_box_scales(circle: RandomCircle, scale: u32)
    requires
        1 <= circle.imgx,
        1 <= circle.imgy,
    ensures
        circle.bounds(scale) is Some <==> circle.bounds(1) is Some,
        circle.bounds(scale) matches Some(area) ==> {
            let own = circle.bounds(1)->0;
            &&& area.x == min(own.x * scale, u32::MAX as int)
            &&& area.y == min(own.y * scale, u32::MAX as int)
            &&& area.width == min(own.width * scale, u32::MAX as int)
            &&& area.height == min(own.height * scale, u32::MAX as int)
        },
{
    let s = scale as int;
    let (wide, high) = (
        circle.right() - circle.left() + 1,
        circle.bottom() - circle.top() + 1,
    );
    assert(wide < 0 ==> wide * s <= 0) by (nonlinear_arith)
        requires
            0 <= s,
    ;
    assert(high < 0 ==> high * s <= 0) by (nonlinear_arith)
        requires
            0 <= s,
    ;
    assert(wide >= 0 ==> 0 <= wide * s) by (nonlinear_arith)
        requires
            0 <= s,
    ;
    assert(high >= 0 ==> 0 <= high * s) by (nonlinear_arith)
        requires
            0 <= s,
    ;
    assert(0 <= circle.left() * s && 0 <= circle.top() * s) by (nonlinear_arith)
        requires
            0 <= s,
            0 <= circle.left(),
            0 <= circle.top(),
    ;
    assert(0 * s == 0);
}

/// The box of a circle can be computed while its sides, with the margin, can be represented, for
/// images whose sides can be represented as well.
pub proof fn law_box_can_be_computed(circle: RandomCircle)
    requires
        1 <= circle.imgx <= i32::MAX,
        1 <= circle.imgy <= i32::MAX,
    ensures
        ({
            let (cx, cy) = (circle.center.0 as int, circle.center.1 as int);
            let r = circle.radius as int;
            circle.can_bound() <==> {
                &&& i32::MIN < cx - r <= i32::MAX
                &&& i32::MIN <= cx + r < i32::MAX
                &&& i32::MIN < cy - r <= i32::MAX
                &&& i32::MIN <= cy + r < i32::MAX
            }
        }),
{
}

/// A circle can be drawn while its coordinates stay in the range of the drawing arithmetic; in any
/// case one with coordinates and a radius of at most 2^29.
pub proof fn law_ordinary_circle_can_be_drawn(circle: RandomCircle, scale: u32)
    requires
        -0x2000_0000 <= circle.center.0 * scale <= 0x2000_0000,
        -0x2000_0000 <= circle.center.1 * scale <= 0x2000_0000,
        -0x2000_0000 <= circle.radius * scale <= 0x2000_0000,
    ensures
        circle.can_draw(scale),
{
}

/// A circle can be drawn exactly if it can be with its centre and its radius scaled, and inside its
/// box exactly if it can be as seen from the corner of the box.
pub proof fn law_scaled_circle_can_be_drawn(circle: RandomCircle, scale: u32)
    ensures
        circle.can_draw(scale) <==> ({
            let disc = circle.disc_at(scale as int);
            drawable(disc.center.0 as int, disc.center.1 as int, disc.radius as int)
        }),
        circle.bounds(scale) matches Some(area) ==> (circle.can_draw_inside(scale) <==> ({
            let disc = circle.disc_inside(area, scale as int);
            drawable(disc.center.0 as int, disc.center.1 as int, disc.radius as int)
        })),
{
}

/// Which circles can be drawn, in plain numbers: a radius of at most 2^30, and sides that can be
/// represented, with room for rounding to the right.
pub proof fn law_what_can_be_drawn(cx: int, cy: int, radius: int)
    ensures
        radius < 0 ==> (drawable(cx, cy, radius) <==> -(i32::MAX as int) < radius),
        radius >= 0 ==> (drawable(cx, cy, radius) <==> {
            &&& radius <= 0x4000_0000
            &&& i32::MIN + radius <= cx < 0x7fff_ffc0 - radius
            &&& i32::MIN + radius <= cy <= i32::MAX - radius
        }),
{
}

/// Which images can be resized, in plain numbers: a row of the result can be counted, and unless
/// the size stays, 16 bytes for each pixel of the old width and the new height, and 4 for each
/// pixel of the result, can be allocated.
pub proof fn law_what_can_be_resized(width: int, height: int, new_width: int, new_height: int)
    ensures
        resizable(width, height, width, height) <==> 4 * width <= usize::MAX,
        new_width != width || new_height != height ==> (resizable(
            width,
            height,
            new_width,
            new_height,
        ) <==> 4 * new_width <= usize::MAX && 16 * (width * new_height) <= isize::MAX && 4 * (
        new_width * new_height) <= isize::MAX),
{
    assert(new_height * (4 * new_width) == 4 * (new_width * new_height)) by (nonlinear_arith);
}

/// Whether `n` is `v`, or the end of the range of a channel that is nearest to it.
pub open spec fn is_nearest_channel(n: u8, v: int) -> bool {
    n == max(0, min(255, v))
}

/// A mutation adds what it has drawn to every colour channel, red, green and blue alike: a channel
/// is the sum if that lies from 0 to 255, 0 if it lies below, and 255 if it lies above. The colour
/// becomes opaque.
pub proof fn law_mutation_adds_to_every_channel(color: Rgba, delta: (i32, i32, i32))
    ensures
        0 <= color.r + delta.0 <= 255 ==> mutated_color(color, delta).r == color.r + delta.0,
        0 <= color.g + delta.1 <= 255 ==> mutated_color(color, delta).g == color.g + delta.1,
        0 <= color.b + delta.2 <= 255 ==> mutated_color(color, delta).b == color.b + delta.2,
        color.r + delta.0 < 0 ==> mutated_color(color, delta).r == 0,
        color.g + delta.1 < 0 ==> mutated_color(color, delta).g == 0,
        color.b + delta.2 < 0 ==> mutated_color(color, delta).b == 0,
        color.r + delta.0 > 255 ==> mutated_color(color, delta).r == 255,
        color.g + delta.1 > 255 ==> mutated_color(color, delta).g == 255,
        color.b + delta.2 > 255 ==> mutated_color(color, delta).b == 255,
        mutated_color(color, delta).a == 255,
{
}

/// The opposite change undoes a change that stays within a channel's range: mutating an opaque
/// colour twice gives the colour back.
pub proof fn law_opposite_mutation_restores_color(
    color: Rgba,
    delta: (i32, i32, i32),
    opposite: (i32, i32, i32),
)
    requires
        color.a == 255,
        0 <= color.r + delta.0 <= 255,
        0 <= color.g + delta.1 <= 255,
        0 <= color.b + delta.2 <= 255,
        opposite.0 == -delta.0,
        opposite.1 == -delta.1,
        opposite.2 == -delta.2,
    ensures
        mutated_color(mutated_color(color, delta), opposite) == color,
{
}

/// A mutation moves the centre by what it has drawn, changes the radius by what it has drawn but
/// leaves at least 1, changes the colour channels, and keeps the size of the image.
pub proof fn law_mutation_adds_what_was_drawn(circle: RandomCircle, m: Mutation)
    requires
        i32::MIN <= circle.center.0 + m.center.0 <= i32::MAX,
        i32::MIN <= circle.center.1 + m.center.1 <= i32::MAX,
        circle.radius + m.radius <= i32::MAX,
    ensures
        circle.mutated(m).imgx == circle.imgx,
        circle.mutated(m).imgy == circle.imgy,
        circle.mutated(m).center.0 == circle.center.0 + m.center.0,
        circle.mutated(m).center.1 == circle.center.1 + m.center.1,
        circle.mutated(m).radius == max(1, circle.radius + m.radius),
        is_nearest_channel(circle.mutated(m).color.r, circle.color.r + m.color.0),
        is_nearest_channel(circle.mutated(m).color.g, circle.color.g + m.color.1),
        is_nearest_channel(circle.mutated(m).color.b, circle.color.b + m.color.2),
        circle.mutated(m).color.a == 255,
{
}

/// Whether `draw` was drawn from the numbers from `low` to `high`, and is one of them.
pub open spec fn drawn_between(draw: Draw, low: int, high: int) -> bool {
    &&& draw.span().low == low
    &&& draw.span().high == high
    &&& low <= draw.number() <= high
}

/// A mutation draws two numbers from -5 to 5 for the centre, three from -20 to 20 for the colour
/// channels and one from -20 to 2 for the radius, and adds each where it belongs.
pub proof fn law_mutation_draws_from_its_ranges(circle: RandomCircle, other: RandomCircle)
    requires
        i32::MIN + 5 <= circle.center.0 <= i32::MAX - 5,
        i32::MIN + 5 <= circle.center.1 <= i32::MAX - 5,
        i32::MIN + 20 <= circle.radius <= i32::MAX - 2,
        circle.mutates_to(other),
    ensures
        circle.can_mutate(),
        other.imgx == circle.imgx,
        other.imgy == circle.imgy,
        other.color.a == 255,
        exists|d: Draw| #[trigger]
            drawn_between(d, -5, 5) && other.center.0 == circle.center.0 + d.number(),
        exists|d: Draw| #[trigger]
            drawn_between(d, -5, 5) && other.center.1 == circle.center.1 + d.number(),
        exists|d: Draw| #[trigger]
            drawn_between(d, -20, 20) && is_nearest_channel(
                other.color.r,
                circle.color.r + d.number(),
            ),
        exists|d: Draw| #[trigger]
            drawn_between(d, -20, 20) && is_nearest_channel(
                other.color.g,
                circle.color.g + d.number(),
            ),
        exists|d: Draw| #[trigger]
            drawn_between(d, -20, 20) && is_nearest_channel(
                other.color.b,
                circle.color.b + d.number(),
            ),
        exists|d: Draw| #[trigger]
            drawn_between(d, -20, 2) && other.radius == max(1, circle.radius + d.number()),
{
    let draws = choose|draws: MutationDraws|
        #[trigger] draws.are_from(mutation_spans()) && other == circle.mutated(draws.numbers());
    law_mutation_adds_what_was_drawn(circle, draws.numbers());
    assert(drawn_between(draws.center.0, -5, 5));
    assert(drawn_between(draws.center.1, -5, 5));
    assert(drawn_between(draws.color.0, -20, 20));
    assert(drawn_between(draws.color.1, -20, 20));
    assert(drawn_between(draws.color.2, -20, 20));
    assert(drawn_between(draws.radius, -20, 2));
}

/// The numbers of a mutation are those drawn, each in its place.
pub proof fn law_mutation_takes_its_draws(draws: MutationDraws)
    ensures
        draws.numbers().center.0 == draws.center.0.number(),
        draws.numbers().center.1 == draws.center.1.number(),
        draws.numbers().color.0 == draws.color.0.number(),
        draws.numbers().color.1 == draws.color.1.number(),
        draws.numbers().color.2 == draws.color.2.number(),
        draws.numbers().radius == draws.radius.number(),
{
}

/// The numbers of a new circle come from the whole image: any column, any row, any radius from 1
/// that is less than the longer side, and any channel value.
pub proof fn law_new_circle_may_be_anywhere(imgx: int, imgy: int)
    requires
        1 <= imgx <= i32::MAX,
        1 <= imgy <= i32::MAX,
    ensures
        fresh_spans(imgx, imgy).x.low == 0,
        fresh_spans(imgx, imgy).x.high == imgx - 1,
        fresh_spans(imgx, imgy).y.low == 0,
        fresh_spans(imgx, imgy).y.high == imgy - 1,
        fresh_spans(imgx, imgy).radius.low == 1,
        fresh_spans(imgx, imgy).radius.high == max(imgx, imgy) - 1,
        fresh_spans(imgx, imgy).channel.low == 0,
        fresh_spans(imgx, imgy).channel.high == 255,
{
}

/// The draws of one mutation each come from their own span.
pub proof fn law_mutation_spans()
    ensures
        mutation_spans().center.low == -5,
        mutation_spans().center.high == 5,
        mutation_spans().color.low == -20,
        mutation_spans().color.high == 20,
        mutation_spans().radius.low == -20,
        mutation_spans().radius.high == 2,
{
}

/// A new circle is opaque, is made for the image, and has each of its numbers from a draw over the
/// whole range for that number.
pub proof fn law_new_circle_is_drawn_for_its_image(circle: RandomCircle, imgx: u32, imgy: u32)
    requires
        1 <= imgx <= i32::MAX,
        1 <= imgy <= i32::MAX,
        circle.is_drawn_for(imgx, imgy),
    ensures
        circle.imgx == imgx,
        circle.imgy == imgy,
        circle.color.a == 255,
        exists|d: Draw| #[trigger]
            drawn_between(d, 0, imgx - 1) && circle.center.0 == d.number(),
        exists|d: Draw| #[trigger]
            drawn_between(d, 0, imgy - 1) && circle.center.1 == d.number(),
        exists|d: Draw| #[trigger]
            drawn_between(d, 1, max(imgx as int, imgy as int) - 1) && circle.radius == d.number(),
        exists|d: Draw| #[trigger] drawn_between(d, 0, 255) && circle.color.r == d.number(),
        exists|d: Draw| #[trigger] drawn_between(d, 0, 255) && circle.color.g == d.number(),
        exists|d: Draw| #[trigger] drawn_between(d, 0, 255) && circle.color.b == d.number(),
{
    let draws = choose|draws: FreshDraws|
        #[trigger] draws.are_from(fresh_spans(imgx as int, imgy as int)) && circle == draws.circle(
            imgx,
            imgy,
        );
    assert(drawn_between(draws.center.0, 0, imgx - 1));
    assert(drawn_between(draws.center.1, 0, imgy - 1));
    assert(drawn_between(draws.radius, 1, max(imgx as int, imgy as int) - 1));
    assert(drawn_between(draws.color.0, 0, 255));
    assert(drawn_between(draws.color.1, 0, 255));
    assert(drawn_between(draws.color.2, 0, 255));
}

/// A fresh circle has its centre in the image, a radius from 1 that is less than the longer side,
/// and is opaque.
pub proof fn law_fresh_circle(circle: RandomCircle, imgx: u32, imgy: u32)
    ensures
        circle.is_fresh(imgx, imgy) <==> {
            &&& circle.imgx == imgx
            &&& circle.imgy == imgy
            &&& 0 <= circle.center.0 < imgx
            &&& 0 <= circle.center.1 < imgy
            &&& 1 <= circle.radius < max(imgx as int, imgy as int)
            &&& circle.color.a == 255
        },
{
}

/// The score from a box alone: the previous score moves by as much as the distance inside the box
/// moves when the disc is drawn there.
pub proof fn law_score_moves_with_the_distance_inside(
    target: Picture,
    current: Picture,
    prev_score: int,
    area: BoundingBox,
    local: Disc,
)
    ensures
        small_score(target, current, prev_score, area, local) - prev_score == distance(
            target.crop(area),
            local.over(current.crop(area)),
        ) - distance(target.crop(area), current.crop(area)),
        score_fits(target, current, prev_score, area, local) <==> {
            let change = small_score(target, current, 0, area, local);
            let inside = distance(target.crop(area), current.crop(area));
            &&& i64::MIN <= prev_score + change <= i64::MAX
            &&& i64::MIN <= prev_score + change + inside <= i64::MAX
        },
{
}

/// Which scores a placed disc gets: the previous one if it lies outside the image; the previous one
/// moved by the change inside its box if four boxes, and four pixels, are no larger than the target;
/// else the distance of the target from the whole picture with the disc drawn over it.
pub proof fn law_score_of_placed_disc(
    target: Picture,
    current: Picture,
    prev_score: int,
    disc: Disc,
    area: BoundingBox,
    local: Disc,
)
    requires
        target.wf(),
    ensures
        placed_score(target, current, prev_score, disc, None) == prev_score,
        4 * (area.width * area.height) + 4 <= target.width * target.height ==> placed_score(
            target,
            current,
            prev_score,
            disc,
            Some((area, local)),
        ) == prev_score + distance(target.crop(area), local.over(current.crop(area))) - distance(
            target.crop(area),
            current.crop(area),
        ),
        4 * (area.width * area.height) + 4 > target.width * target.height ==> placed_score(
            target,
            current,
            prev_score,
            disc,
            Some((area, local)),
        ) == distance(target, disc.over(current)),
{
}

/// When a placed disc can be scored: both images are whole, and a disc in the image has a box and a
/// target whose pixels can be counted. A small box must lie in both images and hold a disc that can
/// be drawn, with a score that can be held; else the images must be of one size, and the disc one
/// that can be drawn.
pub proof fn law_what_can_be_scored(
    target: RgbaImage,
    current: RgbaImage,
    prev_score: int,
    disc: Disc,
    area: BoundingBox,
    local: Disc,
)
    requires
        target.wf(),
        current.wf(),
    ensures
        can_score_placed(target, current, prev_score, disc, None),
        area.width * area.height <= u32::MAX && target.width * target.height <= u32::MAX && 4 * (
        area.width * area.height) + 4 <= target.width * target.height ==> (can_score_placed(
            target,
            current,
            prev_score,
            disc,
            Some((area, local)),
        ) <==> {
            let change = small_score(target@, current@, 0, area, local);
            let inside = distance(target@.crop(area), current@.crop(area));
            &&& area.x + area.width <= target.width
            &&& area.x + area.width <= current.width
            &&& area.y + area.height <= target.height
            &&& area.y + area.height <= current.height
            &&& drawable(local.center.0 as int, local.center.1 as int, local.radius as int)
            &&& i64::MIN <= prev_score + change <= i64::MAX
            &&& i64::MIN <= prev_score + change + inside <= i64::MAX
        }),
        area.width * area.height <= u32::MAX && target.width * target.height <= u32::MAX && 4 * (
        area.width * area.height) + 4 > target.width * target.height ==> (can_score_placed(
            target,
            current,
            prev_score,
            disc,
            Some((area, local)),
        ) <==> {
            &&& target.width == current.width
            &&& target.height == current.height
            &&& drawable(disc.center.0 as int, disc.center.1 as int, disc.radius as int)
        }),
{
}

/// When a circle can be scored at all, and when it can be scored from its box alone.
pub proof fn law_which_circles_can_be_scored(
    circle: RandomCircle,
    target: RgbaImage,
    current: RgbaImage,
    prev_score: int,
    scale: u32,
)
    requires
        target.wf(),
        current.wf(),
        circle.can_bound(),
    ensures
        circle.bounds(scale) is None ==> circle.can_score(target, current, prev_score, scale)
            && !circle.can_score_small(target, current, prev_score, scale),
        circle.bounds(scale) matches Some(area) ==> {
            let local = circle.disc_inside(area, scale as int);
            &&& circle.can_score(target, current, prev_score, scale) <==> can_score_placed(
                target,
                current,
                prev_score,
                circle.disc_at(scale as int),
                Some((area, local)),
            )
            &&& circle.can_score_small(target, current, prev_score, scale) <==> {
                &&& area.x + area.width <= target.width
                &&& area.x + area.width <= current.width
                &&& area.y + area.height <= target.height
                &&& area.y + area.height <= current.height
                &&& drawable(local.center.0 as int, local.center.1 as int, local.radius as int)
                &&& 765 * (area.width * area.height) <= i64::MAX
                &&& score_fits(target@, current@, prev_score, area, local)
            }
        },
{
}

/// The score of a circle, whatever the previous score was. Beside the image it is the previous
/// score. For a box of which four, and four pixels, are no larger than the target, it is the
/// previous score moved by as much as drawing the circle moves the distance of the two pictures.
/// For larger boxes it is the distance once the circle is drawn.
pub proof fn law_score_from_any_previous_score(
    circle: RandomCircle,
    target: Picture,
    current: Picture,
    prev_score: int,
    scale: u32,
)
    requires
        is_canvas(circle, target, scale),
        is_canvas(circle, current, scale),
        is_exact(circle, scale),
    ensures
        circle.bounds(scale) is None ==> circle.score_after(target, current, prev_score, scale)
            == prev_score,
        circle.bounds(scale) matches Some(area) ==> {
            let drawn = distance(target, circle.over(current, scale));
            &&& 4 * (area.width * area.height) + 4 <= target.width * target.height
                ==> circle.score_after(target, current, prev_score, scale) == prev_score + drawn
                - distance(target, current)
            &&& 4 * (area.width * area.height) + 4 > target.width * target.height
                ==> circle.score_after(target, current, prev_score, scale) == drawn
            &&& small_score(
                target,
                current,
                prev_score,
                area,
                circle.disc_inside(area, scale as int),
            ) == prev_score + drawn - distance(target, current)
        },
{
    if circle.bounds(scale) is Some {
        law_scoring_algorithms_agree(circle, target, current, scale);
    }
}

/// The most that two pixels can differ by is 255 in each of three channels.
pub proof fn law_largest_pixel_difference()
    ensures
        MAX_PIXEL_DIFF == 3 * 255,
{
}

} // verus!
