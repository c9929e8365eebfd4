//! The state of an evolving picture: the target, the picture so far, and its score.

use vstd::prelude::*;

use crate::drawing::{nearest, resizable, resize_nearest};
use crate::image_diff::{distance, law_distance_bounds};
use crate::random_shape::{RandomCircle, RandomShape};
use crate::raster::{Picture, Rgba, RgbaImage};
use crate::shape_laws::{is_canvas, is_exact, law_score_is_distance_after_drawing};

verus! {

/// A target, the picture that approaches it, and the picture's score.
pub struct TestStruct {
    pub target_img: RgbaImage,
    pub current_img: RgbaImage,
    pub current_score: u128,
}

/// What an epoch did: a circle that improves the picture with the score it reaches, or nothing.
pub type Epoch = Option<(RandomCircle, u128)>;

impl TestStruct {
    /// Both images are whole and of one size.
    pub open spec fn wf(self) -> bool {
        &&& self.target_img.wf()
        &&& self.current_img.wf()
        &&& self.target_img.width == self.current_img.width
        &&& self.target_img.height == self.current_img.height
    }

    /// Nothing has been drawn yet: the picture is blank and its score the worst there is.
    pub open spec fn is_initial(self) -> bool {
        &&& self.wf()
        &&& self.current_img@ == Picture::tabulate(
            self.target_img.width as int,
            self.target_img.height as int,
            |x: int, y: int| (Rgba { r: 0, g: 0, b: 0, a: 0 }),
        )
        &&& self.current_score == self.target_img.width * self.target_img.height * 255 * 3
    }

    /// A blank picture against a target of the final size.
    pub fn from_scaled(target_img: RgbaImage) -> (state: TestStruct)
        requires
            target_img.wf(),
            target_img.width * target_img.height * 255 * 3 <= u32::MAX,
        ensures
            state.is_initial(),
            state.target_img == target_img,
    {
        let (width, height) = target_img.dimensions();
        proof {
            lemma_pixels_fit(width as int, height as int);
        }
        let worst: u32 = width * height * 255 * 3;
        TestStruct {
            target_img,
            current_img: RgbaImage::new(width, height),
            current_score: worst as u128,
        }
    }

    /// A blank picture against the target resized to `width` times `height` pixels.
    pub fn new_from_image(target_img: RgbaImage, width: u32, height: u32) -> (state: TestStruct)
        requires
            target_img.wf(),
            resizable(
                target_img.width as int,
                target_img.height as int,
                width as int,
                height as int,
            ),
            width * height * 255 * 3 <= u32::MAX,
        ensures
            state.is_initial(),
            state.target_img.width == width,
            state.target_img.height == height,
            state.target_img.data@ == nearest(
                target_img.width as int,
                target_img.height as int,
                target_img.data@,
                width as int,
                height as int,
            ),
    {
        TestStruct::from_scaled(resize_nearest(&target_img, width, height))
    }

    /// The bytes of the picture so far, with its width and height.
    pub fn get_image_data(&self) -> (data: (Vec<u8>, u32, u32))
        ensures
            data.0@ == self.current_img.data@,
            data.1 == self.current_img.width,
            data.2 == self.current_img.height,
    {
        (self.current_img.data.clone(), self.current_img.width, self.current_img.height)
    }

    /// Whether this is `before` once the epoch's circle has been drawn and its score taken over.
    pub open spec fn follows(self, before: TestStruct, epoch: Epoch) -> bool {
        match epoch {
            Some((best_shape, new_score)) => {
                &&& self.wf()
                &&& self.target_img == before.target_img
                &&& self.current_img@ == best_shape.over(before.current_img@, 1)
                &&& self.current_score == new_score
            },
            None => self == before,
        }
    }

    /// Takes over what an epoch found: draws the circle and keeps its score. An epoch that found
    /// nothing changes nothing.
    pub fn try_epoch(&mut self, epoch: Epoch) -> (shape: Option<RandomCircle>)
        requires
            old(self).wf(),
            epoch matches Some((best_shape, _)) ==> best_shape.can_draw(1),
        ensures
            final(self).follows(*old(self), epoch),
            match epoch {
                Some((best_shape, _)) => shape == Some(best_shape),
                None => shape is None,
            },
    {
        match epoch {
            Some((best_shape, new_score)) => {
                self.current_score = new_score;
                self.current_img = best_shape.draw(&self.current_img, 1);
                Some(best_shape)
            },
            None => None,
        }
    }

    /// The width of the target.
    pub fn get_target_width(&self) -> (width: u32)
        ensures
            width == self.target_img.width,
    {
        self.target_img.width
    }

    /// The height of the target.
    pub fn get_target_height(&self) -> (height: u32)
        ensures
            height == self.target_img.height,
    {
        self.target_img.height
    }
}

/// An image whose worst score fits 32 bits has a buffer that can be allocated.
proof fn lemma_pixels_fit(width: int, height: int)
    by (nonlinear_arith)
    requires
        0 <= width,
        0 <= height,
        width * height * 255 * 3 <= u32::MAX,
    ensures
        0 <= width * height <= width * height * 255 <= u32::MAX,
        height * (4 * width) <= 0x7fff_ffff,
{
}

/// Before anything is drawn, the picture has the size of the target, every byte of a pixel is zero,
/// and the score counts 255 for each of three channels of each pixel.
pub proof fn law_first_picture_is_blank(state: TestStruct, x: int, y: int)
    requires
        state.is_initial(),
    ensures
        state.current_img.width == state.target_img.width,
        state.current_img.height == state.target_img.height,
        0 <= x < state.target_img.width && 0 <= y < state.target_img.height ==> {
            &&& state.current_img@.rows[y][x].r == 0
            &&& state.current_img@.rows[y][x].g == 0
            &&& state.current_img@.rows[y][x].b == 0
            &&& state.current_img@.rows[y][x].a == 0
        },
        state.current_score == 765 * (state.target_img.width * state.target_img.height),
{
    let (w, h) = (state.target_img.width as int, state.target_img.height as int);
    assert(w * h * 255 * 3 == 765 * (w * h)) by (nonlinear_arith);
}

/// After an epoch that found a circle, the picture is the one before with that circle drawn over it
/// at its own scale, the score is the epoch's, and the target is as before. After one that found
/// nothing, everything is as before.
pub proof fn law_epoch_draws_what_it_found(
    before: TestStruct,
    after: TestStruct,
    circle: RandomCircle,
    new_score: u128,
)
    ensures
        after.follows(before, Some((circle, new_score))) ==> {
            &&& after.current_score == new_score
            &&& after.target_img == before.target_img
            &&& after.current_img@ == circle.disc_at(1).over(before.current_img@)
        },
        after.follows(before, None) ==> {
            &&& after.current_score == before.current_score
            &&& after.target_img == before.target_img
            &&& after.current_img == before.current_img
        },
{
}

/// The score before anything is drawn is the worst: no picture of that size is further from the
/// target.
pub proof fn law_initial_score_is_worst(state: TestStruct, p: Picture)
    requires
        state.is_initial(),
    ensures
        distance(state.target_img@, p) <= state.current_score,
{
    law_distance_bounds(state.target_img@, p);
    let (w, h) = (state.target_img.width as int, state.target_img.height as int);
    assert(w * h * 255 * 3 == 765 * (w * h)) by (nonlinear_arith);
}

/// If the score is the distance of the picture from the target, and an epoch scores its circle as
/// the circle scores itself, the score is still the distance after the epoch.
pub proof fn law_epoch_keeps_score_true(
    before: TestStruct,
    after: TestStruct,
    circle: RandomCircle,
    new_score: u128,
)
    requires
        before.wf(),
        is_canvas(circle, before.target_img@, 1),
        is_exact(circle, 1),
        before.current_score == distance(before.target_img@, before.current_img@),
        new_score == circle.score_after(
            before.target_img@,
            before.current_img@,
            before.current_score as int,
            1,
        ),
        after.follows(before, Some((circle, new_score))),
    ensures
        after.current_score == distance(after.target_img@, after.current_img@),
{
    law_score_is_distance_after_drawing(circle, before.target_img@, before.current_img@, 1);
}

} // verus!
