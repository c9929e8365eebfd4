use std::iter;

use shape_evolution::drawing::can_resize;
use shape_evolution::evolution::TestStruct;
use shape_evolution::image_diff::image_diff;
use shape_evolution::random::Span;
use shape_evolution::random_shape::{
    clamp_channel, fresh_ranges, mutate_center, mutate_color, mutate_radius, mutation_ranges,
    score_placed, try_score_placed, Disc, FreshDraws, Mutation, MutationDraws, RandomCircle,
    RandomShape,
};
use shape_evolution::raster::{BoundingBox, Rgba, RgbaImage};

const WHITE: Rgba = Rgba { r: 255, g: 255, b: 255, a: 255 };
const CLEAR: Rgba = Rgba { r: 0, g: 0, b: 0, a: 0 };

fn assert_scoring_equal(
    shape: &RandomCircle,
    target_img: &RgbaImage,
    current_img: &RgbaImage,
    prev_score: i64,
    scale: u32,
) {
    match shape.get_bounds(scale) {
        Some(_b) => {}
        None => return,
    };
    let score_small = shape.score_small(target_img, current_img, scale, prev_score);
    let score_large = shape.score_large(target_img, current_img, scale);
    assert_eq!(score_small, score_large);
}

#[test]
fn test_scoring_algs_equal() {
    let (imgx, imgy) = (50, 75);

    let shapes = iter::repeat_with(|| RandomCircle::new(imgx, imgy)).take(1000);

    let target_img = RgbaImage::new(imgx, imgy);
    let current_img = RgbaImage::new(imgx, imgy);
    let prev_score = image_diff(&target_img, &current_img);

    for shape in shapes {
        assert_scoring_equal(&shape, &target_img, &current_img, prev_score, 1);
    }
}

#[test]
fn test_scoring_algs_equal_scale_5() {
    let (imgx, imgy) = (10, 15);
    let scale = 5;

    let shapes = iter::repeat_with(|| RandomCircle::new(imgx, imgy)).take(1000);

    let target_img = RgbaImage::new(imgx * scale, imgy * scale);
    let current_img = RgbaImage::new(imgx * scale, imgy * scale);
    let prev_score = image_diff(&target_img, &current_img);

    assert_eq!(prev_score, 0);

    for shape in shapes {
        assert_scoring_equal(&shape, &target_img, &current_img, prev_score, scale);
    }
}

#[test]
fn test_score_algs_equal_shape_outside_canvas() {
    let (imgx, imgy) = (50, 75);

    let target_img = RgbaImage::new(imgx, imgy);
    let current_img = RgbaImage::new(imgx, imgy);
    let prev_score = image_diff(&target_img, &current_img);

    let shape = RandomCircle { imgx, imgy, center: (-100, -100), radius: 1, color: WHITE };
    assert_scoring_equal(&shape, &target_img, &current_img, prev_score, 1);
}

#[test]
fn test_shape_fills_canvas_bounds() {
    let (imgx, imgy) = (50, 75);

    let shape = RandomCircle { imgx, imgy, center: (100, 100), radius: 1000, color: WHITE };

    let expected_bounds = BoundingBox { x: 0, y: 0, width: imgx, height: imgy };

    assert_eq!(shape.get_bounds(1), Some(expected_bounds));
}

#[test]
fn test_score_small_shape_fills_canvas() {
    let (imgx, imgy) = (50, 75);

    let target_img = RgbaImage::new(imgx, imgy);
    let current_img = RgbaImage::new(imgx, imgy);
    let prev_score = image_diff(&target_img, &current_img);

    let shape = RandomCircle { imgx, imgy, center: (100, 100), radius: 1000, color: WHITE };
    assert_eq!(
        shape.score_small(&target_img, &current_img, 1, prev_score),
        (imgx * imgy * 255 * 3) as i64
    );
}

#[test]
fn test_score_large_shape_fills_canvas() {
    let (imgx, imgy) = (50, 75);

    let target_img = RgbaImage::new(imgx, imgy);
    let current_img = RgbaImage::new(imgx, imgy);
    let prev_score = image_diff(&target_img, &current_img);

    assert_eq!(prev_score, 0);

    let shape = RandomCircle { imgx, imgy, center: (100, 100), radius: 1000, color: WHITE };
    assert_eq!(
        shape.score_large(&target_img, &current_img, 1),
        (imgx * imgy * 255 * 3) as i64
    );
}

#[test]
fn test_score_algs_equal_shape_fills_canvas() {
    let (imgx, imgy) = (50, 75);

    let target_img = RgbaImage::new(imgx, imgy);
    let current_img = RgbaImage::new(imgx, imgy);
    let prev_score = image_diff(&target_img, &current_img);

    let shape = RandomCircle { imgx, imgy, center: (100, 100), radius: 1000, color: WHITE };
    assert_scoring_equal(&shape, &target_img, &current_img, prev_score, 1);
}

/// An image of varied pixels.
fn noise(width: u32, height: u32, seed: u32) -> RgbaImage {
    let data = (0..width * height * 4)
        .map(|i| (i.wrapping_mul(2_654_435_761).wrapping_add(seed.wrapping_mul(40_503)) >> 13) as u8)
        .collect();
    RgbaImage::from_raw(width, height, data).unwrap()
}

#[test]
fn score_is_the_distance_after_drawing() {
    let (imgx, imgy) = (20, 30);
    for scale in 1..4 {
        let target = noise(imgx * scale, imgy * scale, 1);
        let current = noise(imgx * scale, imgy * scale, 2);
        let before = image_diff(&target, &current);
        for _ in 0..200 {
            let shape = RandomCircle::new(imgx, imgy);
            let after = shape.draw(&current, scale);
            assert_eq!(shape.score(&target, &current, before, scale), image_diff(&target, &after));
        }
    }
}

#[test]
fn subimage_is_the_cropped_drawing() {
    let image = noise(40, 60, 3);
    for _ in 0..100 {
        let shape = RandomCircle::new(20, 30);
        let area = shape.get_bounds(2).unwrap();
        assert_eq!(shape.draw_subimage(&image, 2), shape.draw(&image, 2).crop(&area));
    }
}

#[test]
fn drawing_stays_in_bounds() {
    let image = noise(20, 30, 4);
    let shape = RandomCircle { imgx: 20, imgy: 30, center: (8, 9), radius: 3, color: WHITE };
    let area = shape.get_bounds(1).unwrap();
    assert_eq!(area, BoundingBox { x: 4, y: 5, width: 9, height: 9 });
    let drawn = shape.draw(&image, 1);
    for y in 0..30 {
        for x in 0..20 {
            let inside = (4..13).contains(&x) && (5..14).contains(&y);
            assert!(inside || drawn.get_pixel(x, y) == image.get_pixel(x, y));
        }
    }
}

#[test]
fn draw_paints_the_disc_and_nothing_else() {
    let blank = RgbaImage::new(5, 5);
    let shape = RandomCircle { imgx: 5, imgy: 5, center: (2, 2), radius: 1, color: WHITE };
    let drawn = shape.draw(&blank, 1);
    assert_eq!(drawn.dimensions(), (5, 5));
    assert_eq!(drawn.get_pixel(2, 2), WHITE);
    assert_eq!(drawn.get_pixel(1, 2), WHITE);
    assert_eq!(drawn.get_pixel(3, 2), WHITE);
    assert_eq!(drawn.get_pixel(2, 1), WHITE);
    assert_eq!(drawn.get_pixel(2, 3), WHITE);
    assert_eq!(drawn.get_pixel(0, 0), CLEAR);
    assert_eq!(drawn.get_pixel(4, 2), CLEAR);
    assert_eq!(blank.get_pixel(2, 2), CLEAR);
}

#[test]
fn negative_radius_draws_nothing() {
    let image = noise(5, 5, 5);
    let shape = RandomCircle { imgx: 5, imgy: 5, center: (2, 2), radius: -1, color: WHITE };
    assert_eq!(shape.draw(&image, 1), image);
}

#[test]
fn circle_outside_image_changes_nothing() {
    let image = noise(50, 75, 6);
    let target = noise(50, 75, 7);
    let shape =
        RandomCircle { imgx: 50, imgy: 75, center: (-100, -100), radius: 1, color: WHITE };
    assert_eq!(shape.get_bounds(1), None);
    assert_eq!(shape.draw(&image, 1), image);
    assert_eq!(shape.score(&target, &image, 1234, 1), 1234);
}

#[test]
fn bounds_are_clipped_to_the_image() {
    let at = |center, radius| RandomCircle { imgx: 10, imgy: 20, center, radius, color: WHITE };
    assert_eq!(
        at((0, 0), 2).get_bounds(1),
        Some(BoundingBox { x: 0, y: 0, width: 4, height: 4 })
    );
    assert_eq!(
        at((9, 19), 2).get_bounds(1),
        Some(BoundingBox { x: 6, y: 16, width: 4, height: 4 })
    );
    assert_eq!(
        at((5, 10), 1).get_bounds(3),
        Some(BoundingBox { x: 9, y: 24, width: 15, height: 15 })
    );
    assert_eq!(at((12, 10), 1).get_bounds(1), None);
    assert_eq!(at((5, 22), 1).get_bounds(1), None);
    assert_eq!(at((-3, 10), 1).get_bounds(1), None);
    assert_eq!(at((5, -3), 1).get_bounds(1), None);
    assert!(at((11, 10), 1).get_bounds(1).is_some());
}

#[test]
fn boundable_means_no_overflow() {
    let circle = RandomCircle { imgx: 10, imgy: 20, center: (5, 5), radius: 3, color: WHITE };
    assert!(circle.is_boundable());
    assert!(!RandomCircle { imgx: 0, ..circle }.is_boundable());
    assert!(!RandomCircle { imgy: 0, ..circle }.is_boundable());
    assert!(!RandomCircle { imgx: u32::MAX, ..circle }.is_boundable());
    assert!(!RandomCircle { imgy: u32::MAX, ..circle }.is_boundable());
    assert!(!RandomCircle { radius: i32::MAX, ..circle }.is_boundable());
    let beside = RandomCircle { imgy: u32::MAX, center: (100, 5), ..circle };
    assert!(beside.is_boundable());
    assert_eq!(beside.get_bounds(1), None);
}

#[test]
fn scaled_coordinates_saturate() {
    let circle =
        RandomCircle { imgx: 10, imgy: 20, center: (i32::MAX, i32::MIN), radius: 3, color: WHITE };
    let disc = circle.disc(2);
    assert_eq!(disc.center, (i32::MAX, i32::MIN));
    assert_eq!(disc.radius, 6);
    assert!(!disc.is_drawable());
    let area = BoundingBox { x: 7, y: 9, width: 1, height: 1 };
    let local = RandomCircle { center: (5, 5), ..circle }.local_disc(&area, 3);
    assert_eq!(local.center, (8, 6));
    assert!(local.is_drawable());
}

#[test]
fn placed_disc_is_scored_by_either_algorithm() {
    let target = noise(40, 40, 8);
    let current = noise(40, 40, 9);
    let before = image_diff(&target, &current);
    let disc = Disc { center: (20, 20), radius: 4, color: WHITE };
    let area = BoundingBox { x: 15, y: 15, width: 11, height: 11 };
    let local = Disc { center: (5, 5), ..disc };
    let window = Some((area, local));
    let small = score_placed(&target, &current, before, &disc, &window);
    assert_eq!(try_score_placed(&target, &current, before, &disc, &window), Some(small));
    assert_eq!(small, image_diff(&target, &disc.draw(&current)));
    let whole = Some((BoundingBox { x: 0, y: 0, width: 40, height: 40 }, disc));
    assert_eq!(score_placed(&target, &current, before, &disc, &whole), small);
    assert_eq!(score_placed(&target, &current, before, &disc, &None), before);
    let outside = Some((BoundingBox { x: 39, ..area }, local));
    assert_eq!(try_score_placed(&target, &current, before, &disc, &outside), None);
    assert_eq!(try_score_placed(&target, &current, i64::MAX, &disc, &window), None);
}

#[test]
fn scores_near_the_limits_are_given_where_they_fit() {
    let shape = RandomCircle { imgx: 40, imgy: 40, center: (20, 20), radius: 4, color: WHITE };
    let blank = RgbaImage::new(40, 40);
    let white = RgbaImage::from_raw(40, 40, vec![255; 6400]).unwrap();
    let gain = shape.score(&blank, &blank, 0, 1);
    assert!(gain > 0);
    assert_eq!(shape.try_score(&blank, &blank, i64::MAX - gain, 1), Some(i64::MAX));
    assert_eq!(shape.try_score(&blank, &blank, i64::MAX - gain + 1, 1), None);
    assert_eq!(shape.try_score_small(&blank, &blank, 1, i64::MAX - gain), Some(i64::MAX));
    assert_eq!(shape.try_score_small(&blank, &blank, 1, i64::MAX - gain + 1), None);
    assert_eq!(shape.try_score(&white, &blank, i64::MIN + gain, 1), Some(i64::MIN));
    assert_eq!(shape.try_score(&white, &blank, i64::MIN + gain - 1, 1), None);
    let outside = RandomCircle { center: (-100, -100), ..shape };
    assert_eq!(outside.try_score(&blank, &blank, 7, 1), Some(7));
    assert_eq!(outside.try_score_small(&blank, &blank, 1, 7), None);
    let broken = RgbaImage { width: 40, height: 40, data: vec![0; 3] };
    assert_eq!(shape.try_score(&broken, &blank, 0, 1), None);
    assert_eq!(shape.try_score_small(&blank, &broken, 1, 0), None);
}

#[test]
fn circle_covers_its_disc() {
    for radius in 0..60i32 {
        let side = (2 * radius + 5) as u32;
        let center = (radius + 2, radius + 2);
        let circle = RandomCircle { imgx: side, imgy: side, center, radius, color: WHITE };
        let drawn = circle.draw(&RgbaImage::new(side, side), 1);
        for y in 0..side {
            for x in 0..side {
                let a = (x as i32 - center.0).abs();
                let b = (y as i32 - center.1).abs();
                let covered = if radius == 0 {
                    a == 0 && b == 0
                } else {
                    a * a + b * b - a.max(b) < radius * radius
                };
                assert_eq!(drawn.get_pixel(x, y) == WHITE, covered);
            }
        }
    }
}

#[test]
fn covering_circle_fills_the_image() {
    let shape = RandomCircle { imgx: 5, imgy: 4, center: (2, 2), radius: 9, color: WHITE };
    let drawn = shape.draw(&RgbaImage::new(5, 4), 1);
    assert_eq!(drawn, RgbaImage::from_raw(5, 4, vec![255; 80]).unwrap());
    assert_eq!(image_diff(&drawn, &RgbaImage::new(5, 4)), 5 * 4 * 765);
}

#[test]
fn image_diff_ignores_alpha_and_sums_channels() {
    let a = RgbaImage::from_raw(2, 1, vec![1, 2, 3, 4, 200, 0, 0, 0]).unwrap();
    let b = RgbaImage::from_raw(2, 1, vec![4, 2, 1, 255, 0, 7, 0, 9]).unwrap();
    assert_eq!(image_diff(&a, &b), 3 + 2 + 200 + 7);
    assert_eq!(image_diff(&b, &a), 212);
    assert_eq!(image_diff(&a, &a), 0);
}

#[test]
fn from_raw_checks_the_size() {
    assert!(RgbaImage::from_raw(2, 1, vec![0; 7]).is_none());
    assert!(RgbaImage::from_raw(2, 1, vec![0; 9]).is_none());
    let image = RgbaImage::from_raw(2, 1, vec![1, 2, 3, 4, 5, 6, 7, 8]).unwrap();
    assert!(image.is_whole());
    assert_eq!(image.get_pixel(1, 0), Rgba { r: 5, g: 6, b: 7, a: 8 });
}

#[test]
fn crop_copies_the_area() {
    let image = noise(7, 5, 10);
    let area = BoundingBox { x: 2, y: 1, width: 3, height: 4 };
    assert!(image.contains(&area));
    assert!(!image.contains(&BoundingBox { x: 5, ..area }));
    let part = image.crop(&area);
    assert_eq!(part.dimensions(), (3, 4));
    for y in 0..4 {
        for x in 0..3 {
            assert_eq!(part.get_pixel(x, y), image.get_pixel(x + 2, y + 1));
        }
    }
    let nothing = image.crop(&BoundingBox { x: 7, y: 5, width: 0, height: 0 });
    assert_eq!(nothing.data.len(), 0);
}

#[test]
fn clamp_channel_stays_in_a_byte() {
    assert_eq!(clamp_channel(-1), 0);
    assert_eq!(clamp_channel(i32::MIN), 0);
    assert_eq!(clamp_channel(0), 0);
    assert_eq!(clamp_channel(128), 128);
    assert_eq!(clamp_channel(255), 255);
    assert_eq!(clamp_channel(256), 255);
}

#[test]
fn mutation_applies_the_drawn_numbers() {
    assert_eq!(mutate_center((10, -3), (-5, 5)), (5, 2));
    assert_eq!(mutate_radius(10, 2), 12);
    assert_eq!(mutate_radius(10, -20), 1);
    assert_eq!(
        mutate_color(Rgba { r: 250, g: 5, b: 100, a: 3 }, (20, -20, 1)),
        Rgba { r: 255, g: 0, b: 101, a: 255 }
    );
    let circle = RandomCircle { imgx: 9, imgy: 8, center: (1, 2), radius: 3, color: WHITE };
    let other =
        circle.apply_mutation(Mutation { center: (3, -4), color: (-20, 0, 20), radius: 1 });
    assert_eq!((other.imgx, other.imgy), (9, 8));
    assert_eq!(other.center, (4, -2));
    assert_eq!(other.radius, 4);
    assert_eq!(other.color, Rgba { r: 235, g: 255, b: 255, a: 255 });
}

#[test]
fn mutate_stays_in_range_and_varies() {
    let circle = RandomCircle {
        imgx: 90,
        imgy: 80,
        center: (40, 30),
        radius: 25,
        color: Rgba { r: 100, g: 100, b: 100, a: 9 },
    };
    let mut moved = false;
    for _ in 0..200 {
        let other = circle.mutate();
        assert_eq!((other.imgx, other.imgy), (90, 80));
        assert!((other.center.0 - 40).abs() <= 5 && (other.center.1 - 30).abs() <= 5);
        assert!((5..=27).contains(&other.radius));
        assert!((80..=120).contains(&other.color.r));
        assert_eq!(other.color.a, 255);
        moved = moved || other.center != circle.center;
    }
    assert!(moved);
}

#[test]
fn circles_are_drawn_from_their_ranges() {
    let ranges = fresh_ranges(50, 75);
    assert_eq!(ranges.x, Span { low: 0, high: 49 });
    assert_eq!(ranges.y, Span { low: 0, high: 74 });
    assert_eq!(ranges.radius, Span { low: 1, high: 74 });
    assert_eq!(ranges.channel, Span { low: 0, high: 255 });
    assert_eq!(fresh_ranges(9, 1).radius, Span { low: 1, high: 8 });
    let mut radii = Vec::new();
    for _ in 0..2000 {
        let draws = FreshDraws::sample(3, 5);
        let (x, y) = (draws.center.0.get(), draws.center.1.get());
        assert!((0..3).contains(&x) && (0..5).contains(&y));
        radii.push(draws.radius.get());
    }
    radii.sort();
    radii.dedup();
    assert_eq!(radii, vec![1, 2, 3, 4]);
}

#[test]
fn mutations_are_drawn_from_their_ranges() {
    let ranges = mutation_ranges();
    assert_eq!(ranges.center, Span { low: -5, high: 5 });
    assert_eq!(ranges.color, Span { low: -20, high: 20 });
    assert_eq!(ranges.radius, Span { low: -20, high: 2 });
    let mut moves = Vec::new();
    for _ in 0..3000 {
        let m = MutationDraws::sample().get();
        assert!((-20..=20).contains(&m.color.0) && (-20..=2).contains(&m.radius));
        moves.push(m.center.1);
    }
    moves.sort();
    moves.dedup();
    assert_eq!(moves, (-5..=5).collect::<Vec<i32>>());
}

#[test]
fn new_circle_is_made_of_its_draws() {
    let circle = RandomCircle::from_draws(9, 8, (3, 4), 5, (1, 2, 3));
    assert_eq!((circle.imgx, circle.imgy), (9, 8));
    assert_eq!((circle.center, circle.radius), ((3, 4), 5));
    assert_eq!(circle.color, Rgba { r: 1, g: 2, b: 3, a: 255 });
}

#[test]
fn new_circle_lies_in_the_image() {
    for _ in 0..200 {
        let circle = RandomCircle::new(3, 1);
        assert!((0..3).contains(&circle.center.0));
        assert_eq!(circle.center.1, 0);
        assert!((1..3).contains(&circle.radius));
        assert_eq!(circle.color.a, 255);
        assert!(circle.get_bounds(1).is_some());
    }
}

#[test]
fn evolution_starts_blank_with_the_worst_score() {
    let target = RgbaImage::from_raw(2, 2, [9, 8, 7, 255].repeat(4)).unwrap();
    let state = TestStruct::new_from_image(target, 4, 3);
    assert_eq!(state.get_target_width(), 4);
    assert_eq!(state.get_target_height(), 3);
    assert_eq!(state.target_img.data, [9, 8, 7, 255].repeat(12));
    assert_eq!(state.current_score, 4 * 3 * 255 * 3);
    assert_eq!(state.get_image_data(), (vec![0; 48], 4, 3));
    assert!(image_diff(&state.target_img, &state.current_img) as u128 <= state.current_score);
}

#[test]
fn resizing_takes_the_nearest_pixel() {
    let mut data = [1, 1, 1, 255].repeat(2);
    data.extend([2, 2, 2, 255].repeat(2));
    data.extend([1, 1, 1, 255].repeat(2));
    data.extend([2, 2, 2, 255].repeat(2));
    let target = RgbaImage::from_raw(4, 2, data).unwrap();
    let state = TestStruct::new_from_image(target, 2, 1);
    assert_eq!(state.target_img.data, vec![1, 1, 1, 255, 2, 2, 2, 255]);
}

#[test]
fn long_images_can_be_resized() {
    assert!(can_resize(5_000_000, 125, 40_000, 1));
    assert!(can_resize(5, 0, 3, 0));
    assert!(can_resize(0, 5, 2, 2));
    assert!(!can_resize(u32::MAX, 1, 1, u32::MAX));
    let state = TestStruct::new_from_image(noise(200_000, 5, 13), 40_000, 1);
    assert_eq!((state.get_target_width(), state.get_target_height()), (40_000, 1));
    let blank = TestStruct::new_from_image(RgbaImage::new(0, 5), 2, 2);
    assert_eq!(blank.target_img.data, vec![0; 16]);
    let flat = TestStruct::new_from_image(RgbaImage::new(5, 0), 3, 2);
    assert_eq!(flat.target_img.data, vec![0; 24]);
}

#[test]
fn epoch_takes_over_the_best_circle() {
    let mut state = TestStruct::from_scaled(noise(6, 6, 11));
    let circle = RandomCircle { imgx: 6, imgy: 6, center: (3, 3), radius: 2, color: WHITE };
    let blank = RgbaImage::new(6, 6);
    let score = circle.score(&state.target_img, &blank, image_diff(&state.target_img, &blank), 1);
    let shape = state.try_epoch(Some((circle, score as u128)));
    assert_eq!(shape.unwrap().center, (3, 3));
    assert_eq!(state.current_img, circle.draw(&blank, 1));
    assert_eq!(state.current_score, score as u128);
    assert_eq!(state.current_score, image_diff(&state.target_img, &state.current_img) as u128);
}

#[test]
fn epoch_without_a_circle_changes_nothing() {
    let mut state = TestStruct::from_scaled(noise(6, 6, 12));
    assert!(state.try_epoch(None).is_none());
    assert_eq!(state.current_score, 6 * 6 * 765);
    assert_eq!(state.current_img, RgbaImage::new(6, 6));
}
