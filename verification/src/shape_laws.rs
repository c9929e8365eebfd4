//! What holds of drawing and scoring circles as a whole.

use vstd::prelude::*;

use crate::circle_shape::law_circle_covers_what_is_near;
use crate::drawing::exact;
use crate::image_diff::{distance, law_distance_bounds, lemma_distance_change_is_local, plain};
use crate::random_shape::{small_score, Disc, RandomCircle, RandomShape};
use crate::raster::{lemma_same_pixels, BoundingBox, Picture, RgbaImage};

verus! {

/// Whether the picture is `scale` times as large as the image that the circle was made for, with
/// sides that fit the drawing arithmetic.
pub open spec fn is_canvas(circle: RandomCircle, p: Picture, scale: u32) -> bool {
    &&& p.wf()
    &&& p.width == circle.imgx * scale
    &&& p.height == circle.imgy * scale
    &&& p.width <= i32::MAX
    &&& p.height <= i32::MAX
}

/// Whether the circle's coordinates at this scale are exact in single precision.
pub open spec fn is_exact(circle: RandomCircle, scale: u32) -> bool {
    exact(circle.center.0 * scale, circle.center.1 * scale, circle.radius * scale)
}

/// On one axis: a box that starts in the image and reaches into it lies in the scaled image.
proof fn lemma_axis_inside(c: int, r: int, img: int, s: int, first: int, last: int)
    requires
        0 <= s,
        first == if c - r - 1 > 0 {
            c - r - 1
        } else {
            0
        },
        last == if c + r + 1 < img - 1 {
            c + r + 1
        } else {
            img - 1
        },
        first < img,
        0 <= last,
    ensures
        0 <= first * s <= img * s,
        last - first + 1 >= 0 ==> 0 <= (last - first + 1) * s,
        last - first + 1 >= 0 ==> first * s + (last - first + 1) * s <= img * s,
        last - first + 1 < 0 ==> (last - first + 1) * s <= 0,
{
    assert(first * s <= img * s) by (nonlinear_arith)
        requires
            0 <= s,
            0 <= first < img,
    ;
    assert(0 <= first * s) by (nonlinear_arith)
        requires
            0 <= s,
            0 <= first,
    ;
    if last - first + 1 >= 0 {
        assert(first * s + (last - first + 1) * s == (last + 1) * s) by (nonlinear_arith);
        assert((last + 1) * s <= img * s) by (nonlinear_arith)
            requires
                0 <= s,
                last + 1 <= img,
        ;
        assert(0 <= (last - first + 1) * s) by (nonlinear_arith)
            requires
                0 <= s,
                last - first + 1 >= 0,
        ;
    } else {
        assert((last - first + 1) * s <= 0) by (nonlinear_arith)
            requires
                0 <= s,
                last - first + 1 < 0,
        ;
    }
}

/// On one axis: a pixel of the scaled image that the scaled circle reaches lies in the box.
proof fn lemma_axis_reached(c: int, r: int, img: int, s: int, first: int, last: int, x: int)
    requires
        0 <= s,
        0 <= r,
        0 <= img,
        first == if c - r - 1 > 0 {
            c - r - 1
        } else {
            0
        },
        last == if c + r + 1 < img - 1 {
            c + r + 1
        } else {
            img - 1
        },
        0 <= x < img * s,
        c * s - r * s <= x <= c * s + r * s,
    ensures
        first < img,
        0 <= last,
        0 <= last - first + 1,
        first * s <= x < first * s + (last - first + 1) * s,
{
    assert(c * s - r * s == (c - r) * s) by (nonlinear_arith);
    assert(c * s + r * s == (c + r) * s) by (nonlinear_arith);
    assert(s > 0) by (nonlinear_arith)
        requires
            0 <= s,
            0 < img * s,
    ;
    assert(c - r < img) by (nonlinear_arith)
        requires
            0 < s,
            (c - r) * s < img * s,
    ;
    assert(c + r >= 0) by (nonlinear_arith)
        requires
            0 < s,
            0 <= (c + r) * s,
    ;
    assert(first * s <= x) by (nonlinear_arith)
        requires
            0 < s,
            0 <= x,
            (c - r) * s <= x,
            first <= 0 && first >= 0 || first == c - r - 1,
    ;
    assert(first * s + (last - first + 1) * s == (last + 1) * s) by (nonlinear_arith);
    assert(x < (last + 1) * s) by (nonlinear_arith)
        requires
            0 < s,
            x < img * s,
            x <= (c + r) * s,
            last == c + r + 1 || last == img - 1,
    ;
}

/// A circle's box lies in the scaled image: both images can be cropped to it.
pub proof fn law_bounds_lie_in_image(circle: RandomCircle, p: Picture, scale: u32)
    requires
        is_canvas(circle, p, scale),
        circle.bounds(scale) is Some,
    ensures
        p.holds(circle.bounds(scale)->0),
{
    let s = scale as int;
    lemma_axis_inside(
        circle.center.0 as int,
        circle.radius as int,
        circle.imgx as int,
        s,
        circle.left(),
        circle.right(),
    );
    lemma_axis_inside(
        circle.center.1 as int,
        circle.radius as int,
        circle.imgy as int,
        s,
        circle.top(),
        circle.bottom(),
    );
}

/// A scaled radius that is negative belongs to a negative radius.
proof fn lemma_radius_sign(r: int, s: int)
    by (nonlinear_arith)
    requires
        0 <= s,
    ensures
        r >= 0 ==> r * s >= 0,
        r < 0 ==> r * s <= 0,
        r < 0 && s > 0 ==> r * s < 0,
{
}

/// An exact circle that is not empty keeps its coordinates when they are scaled.
proof fn lemma_exact_disc(circle: RandomCircle, scale: u32)
    requires
        is_exact(circle, scale),
    ensures
        circle.radius * scale < 0 ==> circle.disc_at(scale as int).radius < 0,
        circle.radius * scale >= 0 ==> {
            &&& circle.disc_at(scale as int).center.0 == circle.center.0 * scale
            &&& circle.disc_at(scale as int).center.1 == circle.center.1 * scale
            &&& circle.disc_at(scale as int).radius == circle.radius * scale
        },
{
}

/// A pixel that the circle covers lies in the circle's box.
proof fn lemma_covered_in_bounds(circle: RandomCircle, p: Picture, scale: u32, x: int, y: int)
    requires
        is_canvas(circle, p, scale),
        is_exact(circle, scale),
        p.has(x, y),
        circle.disc_at(scale as int).covers(x, y),
    ensures
        circle.bounds(scale) matches Some(area) && area.x <= x < area.x + area.width && area.y
            <= y < area.y + area.height,
{
    let s = scale as int;
    lemma_exact_disc(circle, scale);
    lemma_radius_sign(circle.radius as int, s);
    let disc = circle.disc_at(s);
    law_circle_covers_what_is_near(
        disc.center.0 as int,
        disc.center.1 as int,
        disc.radius as int,
        x,
        y,
    );
    assert(s > 0) by (nonlinear_arith)
        requires
            0 <= s,
            0 < circle.imgx * s,
    ;
    lemma_axis_reached(
        circle.center.0 as int,
        circle.radius as int,
        circle.imgx as int,
        s,
        circle.left(),
        circle.right(),
        x,
    );
    lemma_axis_reached(
        circle.center.1 as int,
        circle.radius as int,
        circle.imgy as int,
        s,
        circle.top(),
        circle.bottom(),
        y,
    );
    lemma_axis_inside(
        circle.center.0 as int,
        circle.radius as int,
        circle.imgx as int,
        s,
        circle.left(),
        circle.right(),
    );
    lemma_axis_inside(
        circle.center.1 as int,
        circle.radius as int,
        circle.imgy as int,
        s,
        circle.top(),
        circle.bottom(),
    );
}

/// Drawing a circle changes no pixel outside the circle's box.
pub proof fn law_drawing_stays_in_bounds(
    circle: RandomCircle,
    p: Picture,
    scale: u32,
    x: int,
    y: int,
)
    requires
        is_canvas(circle, p, scale),
        is_exact(circle, scale),
        p.has(x, y),
        !(circle.bounds(scale) matches Some(area) && area.x <= x < area.x + area.width && area.y
            <= y < area.y + area.height),
    ensures
        circle.over(p, scale).pixel(x, y) == p.pixel(x, y),
{
    if circle.disc_at(scale as int).covers(x, y) {
        lemma_covered_in_bounds(circle, p, scale, x, y);
    }
}

/// A circle without a box lies outside the image: drawing it changes nothing.
pub proof fn law_circle_outside_image_changes_nothing(
    circle: RandomCircle,
    p: Picture,
    scale: u32,
)
    requires
        is_canvas(circle, p, scale),
        is_exact(circle, scale),
        circle.bounds(scale) is None,
    ensures
        circle.over(p, scale) == p,
{
    assert forall|x: int, y: int| p.has(x, y) implies #[trigger] circle.over(p, scale).pixel(x, y)
        == p.pixel(x, y) by {
        law_drawing_stays_in_bounds(circle, p, scale, x, y);
    }
    lemma_same_pixels(circle.over(p, scale), p);
}

/// Inside the box, the circle in coordinates of the box covers what the circle covers.
proof fn lemma_local_disc_covers(
    circle: RandomCircle,
    p: Picture,
    scale: u32,
    area: BoundingBox,
    x: int,
    y: int,
)
    requires
        is_canvas(circle, p, scale),
        is_exact(circle, scale),
        circle.bounds(scale) == Some(area),
        0 <= x < area.width,
        0 <= y < area.height,
    ensures
        circle.disc_inside(area, scale as int).covers(x, y) == circle.disc_at(
            scale as int,
        ).covers(area.x + x, area.y + y),
{
    let s = scale as int;
    let (cx, cy) = (circle.center.0 as int, circle.center.1 as int);
    let r = circle.radius as int;
    lemma_exact_disc(circle, scale);
    lemma_radius_sign(r, s);
    if r * s >= 0 {
        lemma_axis_inside(cx, r, circle.imgx as int, s, circle.left(), circle.right());
        lemma_axis_inside(cy, r, circle.imgy as int, s, circle.top(), circle.bottom());
        assert((cx - r - 1) * s == cx * s - r * s - s) by (nonlinear_arith);
        assert((cy - r - 1) * s == cy * s - r * s - s) by (nonlinear_arith);
        assert(0 * s == 0);
    }
}

/// Drawing a circle on the part of a picture inside the circle's box gives the same as drawing
/// it on the whole picture and cropping the result to the box.
pub proof fn law_subimage_is_cropped_drawing(circle: RandomCircle, p: Picture, scale: u32)
    requires
        is_canvas(circle, p, scale),
        is_exact(circle, scale),
        circle.bounds(scale) is Some,
    ensures
        circle.over_inside(p, scale) == circle.over(p, scale).crop(circle.bounds(scale)->0),
{
    let area = circle.bounds(scale)->0;
    let local = circle.over_inside(p, scale);
    let cropped = circle.over(p, scale).crop(area);
    law_bounds_lie_in_image(circle, p, scale);
    assert forall|x: int, y: int| local.has(x, y) implies #[trigger] local.pixel(x, y)
        == cropped.pixel(x, y) by {
        lemma_local_disc_covers(circle, p, scale, area, x, y);
    }
    lemma_same_pixels(local, cropped);
}

/// Wherever a disc is placed, both scoring algorithms give the same score, if the same disc in
/// coordinates of the box is drawn in there and the box takes in all of the disc that lies in the
/// image.
pub proof fn law_placed_scoring_algorithms_agree(
    target: Picture,
    current: Picture,
    disc: Disc,
    area: BoundingBox,
    local: Disc,
)
    requires
        target.wf(),
        current.wf(),
        target.width == current.width <= i32::MAX,
        target.height == current.height <= i32::MAX,
        target.holds(area),
        exact(disc.center.0 as int, disc.center.1 as int, disc.radius as int),
        exact(local.center.0 as int, local.center.1 as int, local.radius as int),
        local.center.0 == disc.center.0 - area.x,
        local.center.1 == disc.center.1 - area.y,
        local.radius == disc.radius,
        local.color == disc.color,
        forall|x: int, y: int|
            current.has(x, y) && #[trigger] disc.covers(x, y) ==> area.x <= x < area.x + area.width
                && area.y <= y < area.y + area.height,
    ensures
        small_score(target, current, distance(target, current), area, local) == distance(
            target,
            disc.over(current),
        ),
{
    let after = disc.over(current);
    let local_after = local.over(current.crop(area));
    assert forall|x: int, y: int|
        target.has(x, y) && !(area.x <= x < area.x + area.width && area.y <= y < area.y
            + area.height) implies #[trigger] current.pixel(x, y) == after.pixel(x, y) by {
        assert(current.has(x, y));
        assert(!disc.covers(x, y));
    }
    lemma_distance_change_is_local(target, current, after, area);
    assert forall|x: int, y: int| local_after.has(x, y) implies #[trigger] local_after.pixel(x, y)
        == after.crop(area).pixel(x, y) by {
        assert(local.covers(x, y) == disc.covers(area.x + x, area.y + y));
    }
    lemma_same_pixels(local_after, after.crop(area));
}

/// Both scoring algorithms give the same score: cropping to the circle's box and measuring what
/// changes in there, and measuring the whole image again.
pub proof fn law_scoring_algorithms_agree(
    circle: RandomCircle,
    target: Picture,
    current: Picture,
    scale: u32,
)
    requires
        is_canvas(circle, target, scale),
        is_canvas(circle, current, scale),
        is_exact(circle, scale),
        circle.bounds(scale) is Some,
    ensures
        small_score(
            target,
            current,
            distance(target, current),
            circle.bounds(scale)->0,
            circle.disc_inside(circle.bounds(scale)->0, scale as int),
        ) == distance(target, circle.over(current, scale)),
{
    let area = circle.bounds(scale)->0;
    let after = circle.over(current, scale);
    law_bounds_lie_in_image(circle, target, scale);
    law_subimage_is_cropped_drawing(circle, current, scale);
    assert forall|x: int, y: int|
        target.has(x, y) && !(area.x <= x < area.x + area.width && area.y <= y < area.y
            + area.height) implies #[trigger] current.pixel(x, y) == after.pixel(x, y) by {
        law_drawing_stays_in_bounds(circle, current, scale, x, y);
    }
    lemma_distance_change_is_local(target, current, after, area);
}

/// Given the distance of the images before, the score is their distance once the circle is drawn,
/// whichever algorithm computed it and also for a circle outside the image.
pub proof fn law_score_is_distance_after_drawing(
    circle: RandomCircle,
    target: Picture,
    current: Picture,
    scale: u32,
)
    requires
        is_canvas(circle, target, scale),
        is_canvas(circle, current, scale),
        is_exact(circle, scale),
    ensures
        circle.score_after(target, current, distance(target, current), scale) == distance(
            target,
            circle.over(current, scale),
        ),
{
    if circle.bounds(scale) is Some {
        law_scoring_algorithms_agree(circle, target, current, scale);
    } else {
        law_circle_outside_image_changes_nothing(circle, current, scale);
    }
}

/// A fresh circle has a box at every scale: its centre lies in the image.
pub proof fn law_fresh_circle_has_bounds(circle: RandomCircle, imgx: u32, imgy: u32, scale: u32)
    requires
        circle.is_fresh(imgx, imgy),
    ensures
        circle.bounds(scale) is Some,
{
}

/// A circle that has every pixel of the image nearer to its centre than its radius paints the
/// whole image.
pub proof fn law_covering_circle_fills_image(circle: RandomCircle, p: Picture, scale: u32)
    requires
        is_canvas(circle, p, scale),
        is_exact(circle, scale),
        circle.radius >= 0,
        forall|x: int, y: int| #[trigger]
            p.has(x, y) ==> (x - circle.center.0 * scale) * (x - circle.center.0 * scale) + (y
                - circle.center.1 * scale) * (y - circle.center.1 * scale) < (circle.radius * scale)
                * (circle.radius * scale),
    ensures
        circle.over(p, scale) == plain(p.width, p.height, circle.color),
{
    let filled = plain(p.width, p.height, circle.color);
    let disc = circle.disc_at(scale as int);
    lemma_exact_disc(circle, scale);
    lemma_radius_sign(circle.radius as int, scale as int);
    assert forall|x: int, y: int| circle.over(p, scale).has(x, y) implies #[trigger] circle.over(
        p,
        scale,
    ).pixel(x, y) == filled.pixel(x, y) by {
        assert(p.has(x, y));
        law_circle_covers_what_is_near(
            disc.center.0 as int,
            disc.center.1 as int,
            disc.radius as int,
            x,
            y,
        );
    }
    lemma_same_pixels(circle.over(p, scale), filled);
}

/// Coordinates of a fresh circle on an image with sides of at most `side` pixels, scaled.
proof fn lemma_fresh_coordinates(c: int, img: int, r: int, longer: int, s: int, side: int)
    requires
        0 <= s,
        0 <= c < img,
        1 <= r < longer,
        img * s <= side,
        longer * s <= side,
    ensures
        0 <= c * s <= side,
        0 <= r * s <= side,
{
    assert(0 <= c * s <= img * s) by (nonlinear_arith)
        requires
            0 <= s,
            0 <= c < img,
    ;
    assert(0 <= r * s <= longer * s) by (nonlinear_arith)
        requires
            0 <= s,
            1 <= r < longer,
    ;
}

/// Every fresh circle can be scored, on images with sides of up to 2^23 pixels that have fewer
/// than 2^32 pixels, and its score is the distance of the images once it is drawn.
pub proof fn law_fresh_circle_scores_truly(
    circle: RandomCircle,
    imgx: u32,
    imgy: u32,
    target: RgbaImage,
    current: RgbaImage,
    scale: u32,
)
    requires
        circle.is_fresh(imgx, imgy),
        target.wf(),
        current.wf(),
        is_canvas(circle, target@, scale),
        is_canvas(circle, current@, scale),
        imgx <= 0x80_0000,
        imgy <= 0x80_0000,
        target.width <= 0x80_0000,
        target.height <= 0x80_0000,
        target.width * target.height <= u32::MAX,
    ensures
        circle.can_score(target, current, distance(target@, current@), scale),
        circle.score_after(target@, current@, distance(target@, current@), scale) == distance(
            target@,
            circle.over(current@, scale),
        ),
{
    let s = scale as int;
    let (cx, cy) = (circle.center.0 as int, circle.center.1 as int);
    let r = circle.radius as int;
    let longer = if imgx > imgy {
        imgx as int
    } else {
        imgy as int
    };
    lemma_fresh_coordinates(cx, imgx as int, r, longer, s, 0x80_0000);
    lemma_fresh_coordinates(cy, imgy as int, r, longer, s, 0x80_0000);
    assert(is_exact(circle, scale));
    law_score_is_distance_after_drawing(circle, target@, current@, scale);
    law_fresh_circle_has_bounds(circle, imgx, imgy, scale);
    law_bounds_lie_in_image(circle, target@, scale);
    law_distance_bounds(target@, current@);
    let area = circle.bounds(scale)->0;
    assert(area.width * area.height <= target.width * target.height) by (nonlinear_arith)
        requires
            0 <= area.width <= target.width,
            0 <= area.height <= target.height,
    ;
    assert(0 <= area.width * area.height) by (nonlinear_arith)
        requires
            0 <= area.width,
            0 <= area.height,
    ;
    lemma_axis_inside(cx, r, imgx as int, s, circle.left(), circle.right());
    lemma_axis_inside(cy, r, imgy as int, s, circle.top(), circle.bottom());
    law_distance_bounds(target@.crop(area), current@.crop(area));
    law_distance_bounds(
        target@.crop(area),
        circle.disc_inside(area, s).over(current@.crop(area)),
    );
}

/// A mutation keeps the image size, leaves a circle of radius at least 1, and leaves it opaque.
pub proof fn law_mutation_keeps_image_and_stays_visible(
    circle: RandomCircle,
    other: RandomCircle,
)
    requires
        circle.can_mutate(),
        circle.mutates_to(other),
    ensures
        other.imgx == circle.imgx,
        other.imgy == circle.imgy,
        other.radius >= 1,
        other.color.a == 255,
        -5 <= other.center.0 - circle.center.0 <= 5,
        -5 <= other.center.1 - circle.center.1 <= 5,
{
}

} // verus!
