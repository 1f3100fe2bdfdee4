use pngcrop::bounds::{BoundsAccumulator, ContentBounds};
use pngcrop::canvas::Canvas;
use pngcrop::order::{max, min};
use pngcrop::pixel::{Classifier, Pixel};

fn px(red: u8, green: u8, blue: u8, alpha: u8) -> Pixel {
    Pixel { red, green, blue, alpha }
}

fn canvas_of(width: u32, height: u32, fill: Pixel, marks: &[(u32, u32, Pixel)]) -> Canvas {
    let mut data = Vec::new();
    for y in 0..height {
        for x in 0..width {
            let mut p = fill;
            for (mx, my, mp) in marks {
                if *mx == x && *my == y {
                    p = *mp;
                }
            }
            data.push(p.red);
            data.push(p.green);
            data.push(p.blue);
            data.push(p.alpha);
        }
    }
    Canvas::from_raw(width, height, data).unwrap()
}

#[test]
fn min_and_max_of_integers() {
    assert_eq!(min(3u32, 5u32), 3);
    assert_eq!(min(5u32, 3u32), 3);
    assert_eq!(min(4u32, 4u32), 4);
    assert_eq!(max(3u32, 5u32), 5);
    assert_eq!(max(5u32, 3u32), 5);
    assert_eq!(max(-2i64, -7i64), -2);
    assert_eq!(min(0u8, 255u8), 0);
}

#[test]
fn min_and_max_of_other_ordered_values() {
    assert_eq!(min("pear", "apple"), "apple");
    assert_eq!(max("pear", "apple"), "pear");
    assert_eq!(min((1, 9), (1, 2)), (1, 2));
    assert_eq!(max((1, 9), (1, 2)), (1, 9));
}

#[test]
fn width_and_height_count_both_ends() {
    let bounds = ContentBounds { minx: 1, maxx: 2, miny: 3, maxy: 7 };
    assert_eq!(bounds.width(), 2);
    assert_eq!(bounds.height(), 5);
    let point = ContentBounds { minx: 4, maxx: 4, miny: 0, maxy: 0 };
    assert_eq!(point.width(), 1);
    assert_eq!(point.height(), 1);
    let wide = ContentBounds { minx: 0, maxx: u32::MAX - 1, miny: 1, maxy: u32::MAX };
    assert_eq!(wide.width(), u32::MAX);
    assert_eq!(wide.height(), u32::MAX);
}

#[test]
fn fresh_accumulator_finishes_with_the_whole_image() {
    let acc = BoundsAccumulator::new(4, 3);
    assert_eq!(acc.finish(), ContentBounds { minx: 0, maxx: 3, miny: 0, maxy: 2 });
    let tiny = BoundsAccumulator::new(1, 1);
    assert_eq!(tiny.finish(), ContentBounds { minx: 0, maxx: 0, miny: 0, maxy: 0 });
}

#[test]
fn first_report_gives_a_single_pixel_box() {
    let mut acc = BoundsAccumulator::new(5, 5);
    acc.widen(3, 2);
    assert_eq!(acc.finish(), ContentBounds { minx: 3, maxx: 3, miny: 2, maxy: 2 });
}

#[test]
fn first_report_in_the_origin_is_not_taken_for_nothing() {
    let mut acc = BoundsAccumulator::new(5, 5);
    acc.widen(0, 0);
    assert_eq!(acc.finish(), ContentBounds { minx: 0, maxx: 0, miny: 0, maxy: 0 });
}

#[test]
fn reports_widen_each_edge() {
    let mut acc = BoundsAccumulator::new(10, 10);
    acc.widen(4, 5);
    acc.widen(2, 6);
    assert_eq!(acc.finish(), ContentBounds { minx: 2, maxx: 4, miny: 5, maxy: 6 });
    acc.widen(7, 1);
    assert_eq!(acc.finish(), ContentBounds { minx: 2, maxx: 7, miny: 1, maxy: 6 });
    acc.widen(3, 3);
    assert_eq!(acc.finish(), ContentBounds { minx: 2, maxx: 7, miny: 1, maxy: 6 });
    acc.widen(9, 9);
    assert_eq!(acc.finish(), ContentBounds { minx: 2, maxx: 9, miny: 1, maxy: 9 });
}

#[test]
fn order_of_reports_does_not_matter() {
    let mut forward = BoundsAccumulator::new(8, 8);
    forward.widen(1, 6);
    forward.widen(5, 2);
    forward.widen(3, 3);
    let mut backward = BoundsAccumulator::new(8, 8);
    backward.widen(3, 3);
    backward.widen(5, 2);
    backward.widen(1, 6);
    assert_eq!(forward.finish(), backward.finish());
    assert_eq!(forward.finish(), ContentBounds { minx: 1, maxx: 5, miny: 2, maxy: 6 });
}

#[test]
fn compute_finds_the_box_of_opaque_pixels() {
    let img = canvas_of(
        6,
        5,
        px(0, 0, 0, 0),
        &[(4, 1, px(1, 1, 1, 1)), (2, 3, px(1, 1, 1, 200)), (3, 2, px(0, 0, 0, 9))],
    );
    assert_eq!(
        BoundsAccumulator::compute(&img, Classifier::Alpha),
        ContentBounds { minx: 2, maxx: 4, miny: 1, maxy: 3 }
    );
}

#[test]
fn compute_with_a_sample_ignores_alpha() {
    let sample = px(7, 7, 7, 0);
    let img = canvas_of(4, 4, sample, &[(0, 3, px(7, 7, 7, 1)), (1, 2, px(0, 0, 0, 0))]);
    assert_eq!(
        BoundsAccumulator::compute(&img, Classifier::Sample(sample)),
        ContentBounds { minx: 0, maxx: 1, miny: 2, maxy: 3 }
    );
}

#[test]
fn compute_without_content_gives_the_whole_image() {
    let img = canvas_of(3, 2, px(9, 9, 9, 0), &[]);
    assert_eq!(
        BoundsAccumulator::compute(&img, Classifier::Alpha),
        ContentBounds { minx: 0, maxx: 2, miny: 0, maxy: 1 }
    );
}

#[test]
fn compute_with_content_everywhere_gives_the_whole_image() {
    let img = canvas_of(3, 4, px(9, 9, 9, 255), &[(1, 1, px(1, 2, 3, 4))]);
    assert_eq!(
        BoundsAccumulator::compute(&img, Classifier::Alpha),
        ContentBounds { minx: 0, maxx: 2, miny: 0, maxy: 3 }
    );
}

#[test]
fn compute_with_one_content_pixel_gives_that_pixel() {
    for (x0, y0) in [(0u32, 0u32), (4, 0), (0, 2), (4, 2), (2, 1)] {
        let img = canvas_of(5, 3, px(0, 0, 0, 0), &[(x0, y0, px(0, 0, 0, 1))]);
        assert_eq!(
            BoundsAccumulator::compute(&img, Classifier::Alpha),
            ContentBounds { minx: x0, maxx: x0, miny: y0, maxy: y0 }
        );
    }
}

#[test]
fn compute_on_a_single_pixel_image() {
    let clear = canvas_of(1, 1, px(0, 0, 0, 0), &[]);
    let solid = canvas_of(1, 1, px(0, 0, 0, 255), &[]);
    let whole = ContentBounds { minx: 0, maxx: 0, miny: 0, maxy: 0 };
    assert_eq!(BoundsAccumulator::compute(&clear, Classifier::Alpha), whole);
    assert_eq!(BoundsAccumulator::compute(&solid, Classifier::Alpha), whole);
}
