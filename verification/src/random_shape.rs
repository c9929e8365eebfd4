//! Random circles: where they lie, how they are drawn, how they change, and how good they are.

use vstd::prelude::*;

use crate::drawing::{covers, draw_filled_circle, drawable, drawn, filled_circle};
use crate::image_diff::{distance, image_diff, MAX_PIXEL_DIFF};
use crate::random::{gen_range, Draw, Span};
pub use crate::raster::BoundingBox;
use crate::raster::{Picture, Rgba, RgbaImage};

verus! {

/// The number from `low` to `high` that is nearest to `v`.
pub open spec fn clamped(v: int, low: int, high: int) -> int {
    if v < low {
        low
    } else if v > high {
        high
    } else {
        v
    }
}

/// The `i32` nearest to `v`.
pub open spec fn nearest_i32(v: int) -> int {
    clamped(v, i32::MIN as int, i32::MAX as int)
}

/// The `u32` nearest to `v`.
pub open spec fn nearest_u32(v: int) -> int {
    clamped(v, 0, u32::MAX as int)
}

/// `v` times `scale`, less `origin`, or the nearest `i32`.
fn scale_i32(v: i32, scale: u32, origin: u32) -> (s: i32)
    ensures
        s == nearest_i32(v * scale - origin),
{
    proof {
        lemma_scaled_fits(v as int, scale as int);
    }
    let p: i128 = v as i128 * scale as i128 - origin as i128;
    if p < i32::MIN as i128 {
        i32::MIN
    } else if p > i32::MAX as i128 {
        i32::MAX
    } else {
        p as i32
    }
}

/// `v` times `scale`, or the nearest `u32`.
fn scale_u32(v: i32, scale: u32) -> (s: u32)
    ensures
        s == nearest_u32(v * scale),
{
    proof {
        lemma_scaled_fits(v as int, scale as int);
    }
    let p: i128 = v as i128 * scale as i128;
    if p < 0 {
        0
    } else if p > u32::MAX as i128 {
        u32::MAX
    } else {
        p as u32
    }
}

/// A scaled coordinate fits 64 bits.
proof fn lemma_scaled_fits(v: int, scale: int)
    by (nonlinear_arith)
    requires
        i32::MIN <= v <= i32::MAX,
        0 <= scale <= u32::MAX,
    ensures
        i64::MIN <= v * scale <= i64::MAX,
{
}

/// A circle in the pixels of the image that it is drawn on.
#[derive(Clone, Copy, Debug)]
pub struct Disc {
    pub center: (i32, i32),
    pub radius: i32,
    pub color: Rgba,
}

impl Disc {
    /// The picture with the disc drawn over it.
    pub open spec fn over(self, p: Picture) -> Picture {
        drawn(p, self.center.0 as int, self.center.1 as int, self.radius as int, self.color)
    }

    /// Whether the disc covers the pixel `(x, y)`.
    pub open spec fn covers(self, x: int, y: int) -> bool {
        covers(
            self.center.0 as int,
            self.center.1 as int,
            self.radius as int,
            filled_circle(self.center.0 as int, self.center.1 as int, self.radius as int),
            x,
            y,
        )
    }

    /// Whether the disc can be drawn.
    pub open spec fn can_draw(self) -> bool {
        drawable(self.center.0 as int, self.center.1 as int, self.radius as int)
    }

    /// Whether the disc can be drawn, for callers that cannot prove it.
    pub fn is_drawable(&self) -> (ok: bool)
        ensures
            ok == self.can_draw(),
    {
        let (cx, cy) = (self.center.0 as i64, self.center.1 as i64);
        let r: i64 = self.radius as i64;
        -0x7fff_fffe <= r && r <= 0x4000_0000 && (r < 0 || (i32::MIN as i64 <= cx - r && cx + r
            < 0x7fff_ffc0 && i32::MIN as i64 <= cy - r && cy + r <= i32::MAX as i64))
    }

    /// A copy of the image with the disc drawn over it.
    pub fn draw(&self, image: &RgbaImage) -> (out: RgbaImage)
        requires
            image.wf(),
            self.can_draw(),
        ensures
            out.wf(),
            out.width == image.width,
            out.height == image.height,
            out@ == self.over(image@),
    {
        draw_filled_circle(image, self.center, self.radius, self.color)
    }
}

/// The distance of the images inside `area` once the disc `local`, in coordinates of `area`, is
/// drawn there.
pub open spec fn distance_inside(
    target: Picture,
    current: Picture,
    area: BoundingBox,
    local: Disc,
) -> int {
    distance(target.crop(area), local.over(current.crop(area)))
}

/// What becomes of the score when the disc `local`, in coordinates of `area`, is drawn there.
pub open spec fn small_score(
    target: Picture,
    current: Picture,
    prev_score: int,
    area: BoundingBox,
    local: Disc,
) -> int {
    prev_score + distance_inside(target, current, area, local) - distance(
        target.crop(area),
        current.crop(area),
    )
}

/// Whether the score can be held while it changes: with the new distance added, and with the old
/// one taken away again.
pub open spec fn score_fits(
    target: Picture,
    current: Picture,
    prev_score: int,
    area: BoundingBox,
    local: Disc,
) -> bool {
    &&& i64::MIN <= prev_score + distance_inside(target, current, area, local) <= i64::MAX
    &&& i64::MIN <= small_score(target, current, prev_score, area, local) <= i64::MAX
}

/// The score after `local` has been drawn inside `area`: both images are cropped to `area` and
/// only the difference in there is measured again.
pub fn score_window(
    target_img: &RgbaImage,
    current_img: &RgbaImage,
    prev_score: i64,
    area: &BoundingBox,
    local: &Disc,
) -> (score: i64)
    requires
        target_img.wf(),
        current_img.wf(),
        target_img@.holds(*area),
        current_img@.holds(*area),
        local.can_draw(),
        MAX_PIXEL_DIFF * (area.width * area.height) <= i64::MAX,
        score_fits(target_img@, current_img@, prev_score as int, *area, *local),
    ensures
        score == small_score(target_img@, current_img@, prev_score as int, *area, *local),
{
    let cropped_target = target_img.crop(area);
    let cropped_current = current_img.crop(area);
    let new_img = local.draw(&cropped_current);
    let prev_cropped_score: i64 = image_diff(&cropped_target, &cropped_current);
    let new_cropped_score: i64 = image_diff(&cropped_target, &new_img);
    prev_score + new_cropped_score - prev_cropped_score
}

/// The score after `disc` has been drawn on the whole image.
pub fn score_whole(target_img: &RgbaImage, current_img: &RgbaImage, disc: &Disc) -> (score: i64)
    requires
        target_img.wf(),
        current_img.wf(),
        target_img.width == current_img.width,
        target_img.height == current_img.height,
        MAX_PIXEL_DIFF * (target_img.width * target_img.height) <= i64::MAX,
        disc.can_draw(),
    ensures
        score == distance(target_img@, disc.over(current_img@)),
{
    let new_img = disc.draw(current_img);
    image_diff(target_img, &new_img)
}

/// Whether the disc's box is small enough, against the target, to be scored on its own: it has
/// less than a quarter of the target's pixels.
pub open spec fn is_small(area: BoundingBox, target: Picture) -> bool {
    area.width * area.height < (target.width * target.height) / 4
}

/// The score after a disc has been drawn. `window` is the disc's box with the disc in
/// coordinates of that box, or `None` if the disc lies outside the image.
pub open spec fn placed_score(
    target: Picture,
    current: Picture,
    prev_score: int,
    disc: Disc,
    window: Option<(BoundingBox, Disc)>,
) -> int {
    match window {
        None => prev_score,
        Some((area, local)) => if is_small(area, target) {
            small_score(target, current, prev_score, area, local)
        } else {
            distance(target, disc.over(current))
        },
    }
}

/// Whether the images and the disc allow the score after drawing to be computed.
pub open spec fn is_placed(
    target: RgbaImage,
    current: RgbaImage,
    disc: Disc,
    window: Option<(BoundingBox, Disc)>,
) -> bool {
    &&& target.wf()
    &&& current.wf()
    &&& window matches Some((area, local)) ==> {
        &&& area.width * area.height <= u32::MAX
        &&& target.width * target.height <= u32::MAX
        &&& if is_small(area, target@) {
            &&& target@.holds(area)
            &&& current@.holds(area)
            &&& local.can_draw()
        } else {
            &&& target.width == current.width
            &&& target.height == current.height
            &&& disc.can_draw()
        }
    }
}

/// Whether the score after drawing can be computed and held.
pub open spec fn can_score_placed(
    target: RgbaImage,
    current: RgbaImage,
    prev_score: int,
    disc: Disc,
    window: Option<(BoundingBox, Disc)>,
) -> bool {
    &&& is_placed(target, current, disc, window)
    &&& window matches Some((area, local)) ==> is_small(area, target@) ==> score_fits(
        target@,
        current@,
        prev_score,
        area,
        local,
    )
}

/// Whether the images and the disc allow the score after drawing to be computed.
fn check_placed(
    target_img: &RgbaImage,
    current_img: &RgbaImage,
    disc: &Disc,
    window: &Option<(BoundingBox, Disc)>,
) -> (ok: bool)
    ensures
        ok == is_placed(*target_img, *current_img, *disc, *window),
{
    if !target_img.is_whole() || !current_img.is_whole() {
        return false;
    }
    match window {
        None => true,
        Some((area, local)) => {
            proof {
                lemma_pixels_fit(area.width as int, area.height as int);
                lemma_pixels_fit(target_img.width as int, target_img.height as int);
            }
            let area_pixels: u64 = area.width as u64 * area.height as u64;
            let pixels: u64 = target_img.width as u64 * target_img.height as u64;
            if area_pixels > u32::MAX as u64 || pixels > u32::MAX as u64 {
                return false;
            }
            if area_pixels < pixels / 4 {
                target_img.contains(area) && current_img.contains(area) && local.is_drawable()
            } else {
                target_img.width == current_img.width && target_img.height == current_img.height
                    && disc.is_drawable()
            }
        },
    }
}

/// The score after `local` has been drawn inside `area`, as `score_window` gives it, or `None` if
/// it cannot be held while it changes.
fn try_score_window(
    target_img: &RgbaImage,
    current_img: &RgbaImage,
    prev_score: i64,
    area: &BoundingBox,
    local: &Disc,
) -> (score: Option<i64>)
    requires
        target_img.wf(),
        current_img.wf(),
        target_img@.holds(*area),
        current_img@.holds(*area),
        local.can_draw(),
        MAX_PIXEL_DIFF * (area.width * area.height) <= i64::MAX,
    ensures
        score is Some <==> score_fits(
            target_img@,
            current_img@,
            prev_score as int,
            *area,
            *local,
        ),
        score matches Some(s) ==> s == small_score(
            target_img@,
            current_img@,
            prev_score as int,
            *area,
            *local,
        ),
{
    let cropped_target = target_img.crop(area);
    let cropped_current = current_img.crop(area);
    let new_img = local.draw(&cropped_current);
    let prev_cropped_score: i64 = image_diff(&cropped_target, &cropped_current);
    let new_cropped_score: i64 = image_diff(&cropped_target, &new_img);
    match prev_score.checked_add(new_cropped_score) {
        Some(sum) => sum.checked_sub(prev_cropped_score),
        None => None,
    }
}

/// The score after a disc has been drawn, as `score_placed` gives it, or `None` if it cannot be
/// computed or held.
pub fn try_score_placed(
    target_img: &RgbaImage,
    current_img: &RgbaImage,
    prev_score: i64,
    disc: &Disc,
    window: &Option<(BoundingBox, Disc)>,
) -> (score: Option<i64>)
    ensures
        score is Some <==> can_score_placed(
            *target_img,
            *current_img,
            prev_score as int,
            *disc,
            *window,
        ),
        score matches Some(s) ==> s == placed_score(
            target_img@,
            current_img@,
            prev_score as int,
            *disc,
            *window,
        ),
{
    if !check_placed(target_img, current_img, disc, window) {
        return None;
    }
    if let Some((area, local)) = window {
        let (imgx, imgy) = target_img.dimensions();
        if area.width * area.height < imgx * imgy / 4 {
            return try_score_window(target_img, current_img, prev_score, area, local);
        }
    }
    Some(score_placed(target_img, current_img, prev_score, disc, window))
}

/// The number of pixels of an area fits 64 bits.
proof fn lemma_pixels_fit(width: int, height: int)
    by (nonlinear_arith)
    requires
        0 <= width <= u32::MAX,
        0 <= height <= u32::MAX,
    ensures
        0 <= width * height <= u64::MAX,
{
}

/// The score after a disc has been drawn: the previous score if it lies outside the image, else
/// by the cheaper of the two algorithms.
pub fn score_placed(
    target_img: &RgbaImage,
    current_img: &RgbaImage,
    prev_score: i64,
    disc: &Disc,
    window: &Option<(BoundingBox, Disc)>,
) -> (score: i64)
    requires
        can_score_placed(*target_img, *current_img, prev_score as int, *disc, *window),
    ensures
        score == placed_score(target_img@, current_img@, prev_score as int, *disc, *window),
{
    let (imgx, imgy) = target_img.dimensions();
    match window {
        None => prev_score,
        Some((area, local)) => {
            if area.width * area.height < imgx * imgy / 4 {
                score_window(target_img, current_img, prev_score, area, local)
            } else {
                score_whole(target_img, current_img, disc)
            }
        },
    }
}

/// A shape that can be drawn, mutated and scored. Every method that takes a `scale` works on an
/// image whose sides are `scale` times those the shape was made for.
pub trait RandomShape: Sized {
    /// Whether the shape can be drawn at this scale.
    spec fn can_draw(&self, scale: u32) -> bool;

    /// The picture with the shape drawn over it.
    spec fn over(&self, p: Picture, scale: u32) -> Picture;

    /// Whether the shape's box can be computed.
    spec fn can_bound(&self) -> bool;

    /// The shape's box, if any of it lies in the image.
    spec fn bounds(&self, scale: u32) -> Option<BoundingBox>;

    /// Whether the shape can be drawn on the part of an image inside its box.
    spec fn can_draw_inside(&self, scale: u32) -> bool;

    /// The part of the picture inside the shape's box, with the shape drawn over it.
    spec fn over_inside(&self, p: Picture, scale: u32) -> Picture;

    /// Whether every mutation of the shape can be represented.
    spec fn can_mutate(&self) -> bool;

    /// Whether `other` is one of the shape's mutations.
    spec fn mutates_to(&self, other: Self) -> bool;

    /// Whether the shape can be scored.
    spec fn can_score(
        &self,
        target: RgbaImage,
        current: RgbaImage,
        prev_score: int,
        scale: u32,
    ) -> bool;

    /// The score after the shape has been drawn.
    spec fn score_after(
        &self,
        target: Picture,
        current: Picture,
        prev_score: int,
        scale: u32,
    ) -> int;

    /// A copy of the image with the shape drawn over it.
    fn draw(&self, image: &RgbaImage, scale: u32) -> (out: RgbaImage)
        requires
            image.wf(),
            self.can_draw(scale),
        ensures
            out.wf(),
            out.width == image.width,
            out.height == image.height,
            out@ == self.over(image@, scale),
    ;

    /// The same as `draw`, cropped to the box that `get_bounds` returns.
    fn draw_subimage(&self, image: &RgbaImage, scale: u32) -> (out: RgbaImage)
        requires
            image.wf(),
            self.can_bound(),
            self.bounds(scale) is Some,
            image@.holds(self.bounds(scale)->0),
            self.can_draw_inside(scale),
        ensures
            out.wf(),
            out.width == (self.bounds(scale)->0).width,
            out.height == (self.bounds(scale)->0).height,
            out@ == self.over_inside(image@, scale),
    ;

    /// A random variation of the shape.
    fn mutate(&self) -> (other: Self)
        requires
            self.can_mutate(),
        ensures
            self.mutates_to(other),
    ;

    /// The shape's box, or `None` if the shape lies outside the image.
    fn get_bounds(&self, scale: u32) -> (area: Option<BoundingBox>)
        requires
            self.can_bound(),
        ensures
            area == self.bounds(scale),
    ;

    /// How close `current_img` comes to `target_img` once the shape is drawn on it, given how
    /// close it was before. Smaller scores are better.
    fn score(
        &self,
        target_img: &RgbaImage,
        current_img: &RgbaImage,
        prev_score: i64,
        scale: u32,
    ) -> (score: i64)
        requires
            self.can_score(*target_img, *current_img, prev_score as int, scale),
        ensures
            score == self.score_after(target_img@, current_img@, prev_score as int, scale),
    ;
}

/// A filled circle made for an image of `imgx` times `imgy` pixels.
#[derive(Clone, Copy, Debug)]
pub struct RandomCircle {
    pub imgx: u32,
    pub imgy: u32,
    pub center: (i32, i32),
    pub radius: i32,
    pub color: Rgba,
}

/// The numbers that one mutation draws: how far the centre moves, by how much the colour channels
/// change, and by how much the radius changes.
#[derive(Clone, Copy, Debug)]
pub struct Mutation {
    pub center: (i32, i32),
    pub color: (i32, i32, i32),
    pub radius: i32,
}

/// The spans that the numbers of a mutation are drawn from.
#[derive(Clone, Copy, Debug, PartialEq, Eq, Structural)]
pub struct MutationRanges {
    pub center: Span,
    pub color: Span,
    pub radius: Span,
}

/// The centre moves by at most 5 each way, each channel changes by at most 20, and the radius
/// shrinks by at most 20 or grows by at most 2.
pub open spec fn mutation_spans() -> MutationRanges {
    MutationRanges {
        center: Span { low: (-5) as i32, high: 5 },
        color: Span { low: (-20) as i32, high: 20 },
        radius: Span { low: (-20) as i32, high: 2 },
    }
}

/// The spans that the numbers of a mutation are drawn from.
pub fn mutation_ranges() -> (ranges: MutationRanges)
    ensures
        ranges == mutation_spans(),
{
    MutationRanges {
        center: Span { low: -5, high: 5 },
        color: Span { low: -20, high: 20 },
        radius: Span { low: -20, high: 2 },
    }
}

/// The draws of one mutation.
pub struct MutationDraws {
    pub center: (Draw, Draw),
    pub color: (Draw, Draw, Draw),
    pub radius: Draw,
}

impl MutationDraws {
    /// Whether each number was drawn from its span.
    pub open spec fn are_from(self, ranges: MutationRanges) -> bool {
        &&& self.center.0.is_from(ranges.center)
        &&& self.center.1.is_from(ranges.center)
        &&& self.color.0.is_from(ranges.color)
        &&& self.color.1.is_from(ranges.color)
        &&& self.color.2.is_from(ranges.color)
        &&& self.radius.is_from(ranges.radius)
    }

    /// The numbers drawn.
    pub open spec fn numbers(self) -> Mutation {
        Mutation {
            center: (self.center.0.number(), self.center.1.number()),
            color: (self.color.0.number(), self.color.1.number(), self.color.2.number()),
            radius: self.radius.number(),
        }
    }

    /// Draws the numbers of a mutation.
    pub fn sample() -> (draws: MutationDraws)
        ensures
            draws.are_from(mutation_spans()),
    {
        let ranges = mutation_ranges();
        MutationDraws {
            center: (gen_range(ranges.center), gen_range(ranges.center)),
            color: (gen_range(ranges.color), gen_range(ranges.color), gen_range(ranges.color)),
            radius: gen_range(ranges.radius),
        }
    }

    /// The numbers drawn.
    pub fn get(&self) -> (m: Mutation)
        ensures
            m == self.numbers(),
    {
        Mutation {
            center: (self.center.0.get(), self.center.1.get()),
            color: (self.color.0.get(), self.color.1.get(), self.color.2.get()),
            radius: self.radius.get(),
        }
    }
}

/// The spans that the numbers of a new circle are drawn from: the centre's coordinates, the
/// radius, and the colour channels.
#[derive(Clone, Copy, Debug, PartialEq, Eq, Structural)]
pub struct FreshRanges {
    pub x: Span,
    pub y: Span,
    pub radius: Span,
    pub channel: Span,
}

/// The centre is any pixel of the image, the radius is at least 1 and less than the image's longer
/// side, and each channel is any.
pub open spec fn fresh_spans(imgx: int, imgy: int) -> FreshRanges {
    FreshRanges {
        x: Span { low: 0, high: (imgx - 1) as i32 },
        y: Span { low: 0, high: (imgy - 1) as i32 },
        radius: Span {
            low: 1,
            high: (if imgx > imgy {
                imgx - 1
            } else {
                imgy - 1
            }) as i32,
        },
        channel: Span { low: 0, high: 255 },
    }
}

/// The spans that the numbers of a new circle are drawn from.
pub fn fresh_ranges(imgx: u32, imgy: u32) -> (ranges: FreshRanges)
    requires
        1 <= imgx <= i32::MAX,
        1 <= imgy <= i32::MAX,
    ensures
        ranges == fresh_spans(imgx as int, imgy as int),
{
    let simgx: i32 = imgx as i32;
    let simgy: i32 = imgy as i32;
    let max_radius: i32 = if simgx > simgy {
        simgx
    } else {
        simgy
    };
    FreshRanges {
        x: Span { low: 0, high: simgx - 1 },
        y: Span { low: 0, high: simgy - 1 },
        radius: Span { low: 1, high: max_radius - 1 },
        channel: Span { low: 0, high: 255 },
    }
}

/// The draws of one new circle.
pub struct FreshDraws {
    pub center: (Draw, Draw),
    pub radius: Draw,
    pub color: (Draw, Draw, Draw),
}

impl FreshDraws {
    /// Whether each number was drawn from its span.
    pub open spec fn are_from(self, ranges: FreshRanges) -> bool {
        &&& self.center.0.is_from(ranges.x)
        &&& self.center.1.is_from(ranges.y)
        &&& self.radius.is_from(ranges.radius)
        &&& self.color.0.is_from(ranges.channel)
        &&& self.color.1.is_from(ranges.channel)
        &&& self.color.2.is_from(ranges.channel)
    }

    /// The opaque circle of the numbers drawn.
    pub open spec fn circle(self, imgx: u32, imgy: u32) -> RandomCircle {
        RandomCircle {
            imgx,
            imgy,
            center: (self.center.0.number(), self.center.1.number()),
            radius: self.radius.number(),
            color: Rgba {
                r: self.color.0.number() as u8,
                g: self.color.1.number() as u8,
                b: self.color.2.number() as u8,
                a: 255,
            },
        }
    }

    /// Draws the numbers of a circle for an image of this size.
    pub fn sample(imgx: u32, imgy: u32) -> (draws: FreshDraws)
        requires
            1 <= imgx <= i32::MAX,
            1 <= imgy <= i32::MAX,
            imgx > 1 || imgy > 1,
        ensures
            draws.are_from(fresh_spans(imgx as int, imgy as int)),
    {
        let ranges = fresh_ranges(imgx, imgy);
        let center = (gen_range(ranges.x), gen_range(ranges.y));
        let radius = gen_range(ranges.radius);
        let color = (
            gen_range(ranges.channel),
            gen_range(ranges.channel),
            gen_range(ranges.channel),
        );
        FreshDraws { center, radius, color }
    }
}

/// The channel value nearest to `c`.
pub fn clamp_channel(c: i32) -> (channel: u8)
    ensures
        channel == clamped(c as int, 0, 255),
        0 <= c <= 255 ==> channel == c,
        c < 0 ==> channel == 0,
        c > 255 ==> channel == 255,
{
    if c < 0 {
        0
    } else if c > 255 {
        255
    } else {
        c as u8
    }
}

/// The centre, moved.
pub fn mutate_center(center: (i32, i32), delta: (i32, i32)) -> (moved: (i32, i32))
    requires
        i32::MIN <= center.0 + delta.0 <= i32::MAX,
        i32::MIN <= center.1 + delta.1 <= i32::MAX,
    ensures
        moved.0 == center.0 + delta.0,
        moved.1 == center.1 + delta.1,
{
    (center.0 + delta.0, center.1 + delta.1)
}

/// The radius, changed, but at least 1.
pub fn mutate_radius(radius: i32, delta: i32) -> (changed: i32)
    requires
        i32::MIN <= radius + delta <= i32::MAX,
    ensures
        changed == clamped(radius + delta, 1, i32::MAX as int),
        radius + delta >= 1 ==> changed == radius + delta,
        radius + delta < 1 ==> changed == 1,
{
    let changed: i32 = radius + delta;
    if changed < 1 {
        1
    } else {
        changed
    }
}

/// The colour with each channel changed and clamped, opaque.
pub open spec fn mutated_color(color: Rgba, delta: (i32, i32, i32)) -> Rgba {
    Rgba {
        r: clamped(color.r + delta.0, 0, 255) as u8,
        g: clamped(color.g + delta.1, 0, 255) as u8,
        b: clamped(color.b + delta.2, 0, 255) as u8,
        a: 255,
    }
}

/// The colour with each channel changed and clamped, opaque.
pub fn mutate_color(color: Rgba, delta: (i32, i32, i32)) -> (changed: Rgba)
    requires
        color.r + delta.0 <= i32::MAX,
        color.g + delta.1 <= i32::MAX,
        color.b + delta.2 <= i32::MAX,
    ensures
        changed == mutated_color(color, delta),
        0 <= color.r + delta.0 <= 255 ==> changed.r == color.r + delta.0,
        0 <= color.g + delta.1 <= 255 ==> changed.g == color.g + delta.1,
        0 <= color.b + delta.2 <= 255 ==> changed.b == color.b + delta.2,
        changed.a == 255,
{
    Rgba {
        r: clamp_channel(color.r as i32 + delta.0),
        g: clamp_channel(color.g as i32 + delta.1),
        b: clamp_channel(color.b as i32 + delta.2),
        a: 255,
    }
}

impl RandomCircle {
    /// The circle in pixels of an image `scale` times as large.
    pub open spec fn disc_at(self, scale: int) -> Disc {
        Disc {
            center: (
                nearest_i32(self.center.0 * scale) as i32,
                nearest_i32(self.center.1 * scale) as i32,
            ),
            radius: nearest_i32(self.radius * scale) as i32,
            color: self.color,
        }
    }

    /// The circle in pixels of the part inside `area` of an image `scale` times as large.
    pub open spec fn disc_inside(self, area: BoundingBox, scale: int) -> Disc {
        Disc {
            center: (
                nearest_i32(self.center.0 * scale - area.x) as i32,
                nearest_i32(self.center.1 * scale - area.y) as i32,
            ),
            radius: nearest_i32(self.radius * scale) as i32,
            color: self.color,
        }
    }

    /// The first column of the circle's box: one beside the circle, but in the image.
    pub open spec fn left(self) -> int {
        if self.center.0 - self.radius - 1 > 0 {
            self.center.0 - self.radius - 1
        } else {
            0
        }
    }

    /// The first row of the circle's box.
    pub open spec fn top(self) -> int {
        if self.center.1 - self.radius - 1 > 0 {
            self.center.1 - self.radius - 1
        } else {
            0
        }
    }

    /// The last column of the circle's box: one beside the circle, but in the image.
    pub open spec fn right(self) -> int {
        if self.center.0 + self.radius + 1 < self.imgx - 1 {
            self.center.0 + self.radius + 1
        } else {
            self.imgx - 1
        }
    }

    /// The last row of the circle's box.
    pub open spec fn bottom(self) -> int {
        if self.center.1 + self.radius + 1 < self.imgy - 1 {
            self.center.1 + self.radius + 1
        } else {
            self.imgy - 1
        }
    }

    /// The box with the disc in its coordinates, if the circle lies in the image.
    pub open spec fn window(self, scale: u32) -> Option<(BoundingBox, Disc)> {
        match self.bounds(scale) {
            Some(area) => Some((area, self.disc_inside(area, scale as int))),
            None => None,
        }
    }

    /// The circle after a mutation that drew `m`.
    pub open spec fn mutated(self, m: Mutation) -> RandomCircle {
        RandomCircle {
            imgx: self.imgx,
            imgy: self.imgy,
            center: (
                (self.center.0 + m.center.0) as i32,
                (self.center.1 + m.center.1) as i32,
            ),
            radius: clamped(self.radius + m.radius, 1, i32::MAX as int) as i32,
            color: mutated_color(self.color, m.color),
        }
    }

    /// Whether the circle is one that `new` may return for an image of this size.
    pub open spec fn is_fresh(self, imgx: u32, imgy: u32) -> bool {
        &&& self.imgx == imgx
        &&& self.imgy == imgy
        &&& 0 <= self.center.0 < imgx
        &&& 0 <= self.center.1 < imgy
        &&& 1 <= self.radius
        &&& self.radius < imgx || self.radius < imgy
        &&& self.color.a == 255
    }

    /// Whether the circle is made of numbers drawn for an image of this size.
    pub open spec fn is_drawn_for(self, imgx: u32, imgy: u32) -> bool {
        exists|draws: FreshDraws|
            #[trigger] draws.are_from(fresh_spans(imgx as int, imgy as int)) && self
                == draws.circle(imgx, imgy)
    }

    /// A random opaque circle whose centre lies in the image and whose radius is less than its
    /// longer side.
    pub fn new(imgx: u32, imgy: u32) -> (circle: RandomCircle)
        requires
            1 <= imgx <= i32::MAX,
            1 <= imgy <= i32::MAX,
            imgx > 1 || imgy > 1,
        ensures
            circle.is_fresh(imgx, imgy),
            circle.is_drawn_for(imgx, imgy),
    {
        let draws = FreshDraws::sample(imgx, imgy);
        let center = (draws.center.0.get(), draws.center.1.get());
        let rgb = (
            draws.color.0.get() as u8,
            draws.color.1.get() as u8,
            draws.color.2.get() as u8,
        );
        RandomCircle::from_draws(imgx, imgy, center, draws.radius.get(), rgb)
    }

    /// The opaque circle that `new` makes of the numbers that it has drawn.
    pub fn from_draws(
        imgx: u32,
        imgy: u32,
        center: (i32, i32),
        radius: i32,
        rgb: (u8, u8, u8),
    ) -> (circle: RandomCircle)
        ensures
            circle == (RandomCircle {
                imgx,
                imgy,
                center,
                radius,
                color: Rgba { r: rgb.0, g: rgb.1, b: rgb.2, a: 255 },
            }),
    {
        let color = Rgba { r: rgb.0, g: rgb.1, b: rgb.2, a: 255 };
        RandomCircle { imgx, imgy, center, radius, color }
    }

    /// The circle after a mutation that drew `m`.
    pub fn apply_mutation(&self, m: Mutation) -> (other: RandomCircle)
        requires
            i32::MIN <= self.center.0 + m.center.0 <= i32::MAX,
            i32::MIN <= self.center.1 + m.center.1 <= i32::MAX,
            i32::MIN <= self.radius + m.radius <= i32::MAX,
            self.color.r + m.color.0 <= i32::MAX,
            self.color.g + m.color.1 <= i32::MAX,
            self.color.b + m.color.2 <= i32::MAX,
        ensures
            other == self.mutated(m),
    {
        RandomCircle {
            imgx: self.imgx,
            imgy: self.imgy,
            center: mutate_center(self.center, m.center),
            radius: mutate_radius(self.radius, m.radius),
            color: mutate_color(self.color, m.color),
        }
    }

    /// Whether the circle's box can be computed, for callers that cannot prove it.
    pub fn is_boundable(&self) -> (ok: bool)
        ensures
            ok == self.can_bound(),
    {
        let (cx, cy) = (self.center.0 as i64, self.center.1 as i64);
        let r: i64 = self.radius as i64;
        let (low, high) = (i32::MIN as i64, i32::MAX as i64);
        low <= cx - r - 1 && cx - r <= high && low <= cx + r && cx + r + 1 <= high && low <= cy - r
            - 1 && cy - r <= high && low <= cy + r && cy + r + 1 <= high && 1 <= self.imgx
            && self.imgx <= i32::MAX as u32 && 1 <= self.imgy && (cx - r - 1 >= self.imgx as i64
            || self.imgy <= i32::MAX as u32)
    }

    /// The circle in pixels of an image `scale` times as large.
    pub fn disc(&self, scale: u32) -> (disc: Disc)
        ensures
            disc == self.disc_at(scale as int),
    {
        Disc {
            center: (scale_i32(self.center.0, scale, 0), scale_i32(self.center.1, scale, 0)),
            radius: scale_i32(self.radius, scale, 0),
            color: self.color,
        }
    }

    /// The circle in pixels of the part inside `area` of an image `scale` times as large.
    pub fn local_disc(&self, area: &BoundingBox, scale: u32) -> (disc: Disc)
        ensures
            disc == self.disc_inside(*area, scale as int),
    {
        Disc {
            center: (
                scale_i32(self.center.0, scale, area.x),
                scale_i32(self.center.1, scale, area.y),
            ),
            radius: scale_i32(self.radius, scale, 0),
            color: self.color,
        }
    }

    /// Whether the score after drawing can be computed from the circle's box alone, and held.
    pub open spec fn can_score_small(
        self,
        target: RgbaImage,
        current: RgbaImage,
        prev_score: int,
        scale: u32,
    ) -> bool {
        let area = self.bounds(scale)->0;
        &&& target.wf()
        &&& current.wf()
        &&& self.can_bound()
        &&& self.bounds(scale) is Some
        &&& target@.holds(area)
        &&& current@.holds(area)
        &&& self.can_draw_inside(scale)
        &&& MAX_PIXEL_DIFF * (area.width * area.height) <= i64::MAX
        &&& score_fits(
            target@,
            current@,
            prev_score,
            area,
            self.disc_inside(area, scale as int),
        )
    }

    /// The score after drawing, from the circle's box alone: the images are cropped to it, and
    /// all drawing and scoring is done there.
    pub fn score_small(
        &self,
        target_img: &RgbaImage,
        current_img: &RgbaImage,
        scale: u32,
        prev_score: i64,
    ) -> (score: i64)
        requires
            self.can_score_small(*target_img, *current_img, prev_score as int, scale),
        ensures
            score == small_score(
                target_img@,
                current_img@,
                prev_score as int,
                self.bounds(scale)->0,
                self.disc_inside(self.bounds(scale)->0, scale as int),
            ),
    {
        let area = self.get_bounds(scale).unwrap();
        let local = self.local_disc(&area, scale);
        score_window(target_img, current_img, prev_score, &area, &local)
    }

    /// The score after drawing, as `score_small` gives it, or `None` if it cannot be computed or
    /// held.
    pub fn try_score_small(
        &self,
        target_img: &RgbaImage,
        current_img: &RgbaImage,
        scale: u32,
        prev_score: i64,
    ) -> (score: Option<i64>)
        ensures
            score is Some <==> self.can_score_small(
                *target_img,
                *current_img,
                prev_score as int,
                scale,
            ),
            score matches Some(s) ==> s == small_score(
                target_img@,
                current_img@,
                prev_score as int,
                self.bounds(scale)->0,
                self.disc_inside(self.bounds(scale)->0, scale as int),
            ),
    {
        if !target_img.is_whole() || !current_img.is_whole() || !self.is_boundable() {
            return None;
        }
        match self.get_bounds(scale) {
            Some(area) => {
                let local = self.local_disc(&area, scale);
                proof {
                    lemma_pixels_fit(area.width as int, area.height as int);
                }
                let most: u128 = MAX_PIXEL_DIFF as u128 * (area.width as u64
                    * area.height as u64) as u128;
                if !target_img.contains(&area) || !current_img.contains(&area)
                    || !local.is_drawable() || most > i64::MAX as u128 {
                    return None;
                }
                try_score_window(target_img, current_img, prev_score, &area, &local)
            },
            None => None,
        }
    }

    /// The score after drawing, as `score` gives it, or `None` if it cannot be computed or held.
    pub fn try_score(
        &self,
        target_img: &RgbaImage,
        current_img: &RgbaImage,
        prev_score: i64,
        scale: u32,
    ) -> (score: Option<i64>)
        ensures
            score is Some <==> self.can_score(
                *target_img,
                *current_img,
                prev_score as int,
                scale,
            ),
            score matches Some(s) ==> s == self.score_after(
                target_img@,
                current_img@,
                prev_score as int,
                scale,
            ),
    {
        if !self.is_boundable() {
            return None;
        }
        let window = match self.get_bounds(scale) {
            Some(area) => Some((area, self.local_disc(&area, scale))),
            None => None,
        };
        if !check_placed(target_img, current_img, &self.disc(scale), &window) {
            return None;
        }
        if let Some((area, local)) = &window {
            let (imgx, imgy) = target_img.dimensions();
            if area.width * area.height < imgx * imgy / 4 {
                return try_score_window(target_img, current_img, prev_score, area, local);
            }
        }
        Some(self.score(target_img, current_img, prev_score, scale))
    }

    /// The score after drawing on the whole image, as is best for circles with large boxes.
    pub fn score_large(
        &self,
        target_img: &RgbaImage,
        current_img: &RgbaImage,
        scale: u32,
    ) -> (score: i64)
        requires
            target_img.wf(),
            current_img.wf(),
            target_img.width == current_img.width,
            target_img.height == current_img.height,
            MAX_PIXEL_DIFF * (target_img.width * target_img.height) <= i64::MAX,
            self.can_draw(scale),
        ensures
            score == distance(target_img@, self.over(current_img@, scale)),
    {
        score_whole(target_img, current_img, &self.disc(scale))
    }
}

impl RandomShape for RandomCircle {
    open spec fn can_draw(&self, scale: u32) -> bool {
        self.disc_at(scale as int).can_draw()
    }

    open spec fn over(&self, p: Picture, scale: u32) -> Picture {
        self.disc_at(scale as int).over(p)
    }

    /// No coordinate of the box overflows, and the image's sides are coordinates. The height is
    /// not looked at where the box starts to the right of the image.
    open spec fn can_bound(&self) -> bool {
        &&& i32::MIN <= self.center.0 - self.radius - 1
        &&& self.center.0 - self.radius <= i32::MAX
        &&& i32::MIN <= self.center.0 + self.radius
        &&& self.center.0 + self.radius + 1 <= i32::MAX
        &&& i32::MIN <= self.center.1 - self.radius - 1
        &&& self.center.1 - self.radius <= i32::MAX
        &&& i32::MIN <= self.center.1 + self.radius
        &&& self.center.1 + self.radius + 1 <= i32::MAX
        &&& 1 <= self.imgx <= i32::MAX
        &&& 1 <= self.imgy
        &&& self.left() >= self.imgx || self.imgy <= i32::MAX
    }

    open spec fn bounds(&self, scale: u32) -> Option<BoundingBox> {
        if self.left() >= self.imgx || self.top() >= self.imgy || self.right() < 0
            || self.bottom() < 0 {
            None
        } else {
            Some(
                BoundingBox {
                    x: nearest_u32(self.left() * scale) as u32,
                    y: nearest_u32(self.top() * scale) as u32,
                    width: nearest_u32((self.right() - self.left() + 1) * scale) as u32,
                    height: nearest_u32((self.bottom() - self.top() + 1) * scale) as u32,
                },
            )
        }
    }

    open spec fn can_draw_inside(&self, scale: u32) -> bool {
        self.disc_inside(self.bounds(scale)->0, scale as int).can_draw()
    }

    open spec fn over_inside(&self, p: Picture, scale: u32) -> Picture {
        self.disc_inside(self.bounds(scale)->0, scale as int).over(p.crop(self.bounds(scale)->0))
    }

    open spec fn can_mutate(&self) -> bool {
        &&& i32::MIN + 5 <= self.center.0 <= i32::MAX - 5
        &&& i32::MIN + 5 <= self.center.1 <= i32::MAX - 5
        &&& i32::MIN + 20 <= self.radius <= i32::MAX - 2
    }

    open spec fn mutates_to(&self, other: Self) -> bool {
        exists|draws: MutationDraws|
            #[trigger] draws.are_from(mutation_spans()) && other == self.mutated(draws.numbers())
    }

    open spec fn can_score(
        &self,
        target: RgbaImage,
        current: RgbaImage,
        prev_score: int,
        scale: u32,
    ) -> bool {
        &&& self.can_bound()
        &&& can_score_placed(
            target,
            current,
            prev_score,
            self.disc_at(scale as int),
            self.window(scale),
        )
    }

    open spec fn score_after(
        &self,
        target: Picture,
        current: Picture,
        prev_score: int,
        scale: u32,
    ) -> int {
        placed_score(target, current, prev_score, self.disc_at(scale as int), self.window(scale))
    }

    fn draw(&self, image: &RgbaImage, scale: u32) -> (out: RgbaImage) {
        self.disc(scale).draw(image)
    }

    fn draw_subimage(&self, image: &RgbaImage, scale: u32) -> (out: RgbaImage) {
        let area = self.get_bounds(scale).unwrap();
        let part = image.crop(&area);
        self.local_disc(&area, scale).draw(&part)
    }

    fn mutate(&self) -> (other: Self) {
        let draws = MutationDraws::sample();
        self.apply_mutation(draws.get())
    }

    fn get_bounds(&self, scale: u32) -> (area: Option<BoundingBox>) {
        let left: i32 = self.center.0 - self.radius - 1;
        let top: i32 = self.center.1 - self.radius - 1;
        let right: i32 = self.center.0 + self.radius + 1;
        let bottom: i32 = self.center.1 + self.radius + 1;
        let x: i32 = if left > 0 {
            left
        } else {
            0
        };
        if x >= self.imgx as i32 {
            return None;
        }
        let y: i32 = if top > 0 {
            top
        } else {
            0
        };
        let x2: i32 = if right < self.imgx as i32 - 1 {
            right
        } else {
            self.imgx as i32 - 1
        };
        let y2: i32 = if bottom < self.imgy as i32 - 1 {
            bottom
        } else {
            self.imgy as i32 - 1
        };
        if y >= self.imgy as i32 || x2 < 0 || y2 < 0 {
            return None;
        }
        Some(
            BoundingBox {
                x: scale_u32(x, scale),
                y: scale_u32(y, scale),
                width: scale_u32(x2 - x + 1, scale),
                height: scale_u32(y2 - y + 1, scale),
            },
        )
    }

    fn score(
        &self,
        target_img: &RgbaImage,
        current_img: &RgbaImage,
        prev_score: i64,
        scale: u32,
    ) -> (score: i64) {
        let (imgx, imgy) = target_img.dimensions();
        match self.get_bounds(scale) {
            None => prev_score,
            Some(area) => {
                if area.width * area.height < imgx * imgy / 4 {
                    self.score_small(target_img, current_img, scale, prev_score)
                } else {
                    self.score_large(target_img, current_img, scale)
                }
            },
        }
    }
}

} // verus!
