use pngcrop::bounds::ContentBounds;
use pngcrop::canvas::Canvas;
use pngcrop::pixel::{BackgroundSample, ClassificationMode, Classifier, Pixel};
use pngcrop::planner::{
    crop_to_bounds, crop_to_content, find_boundaries, find_content_bounds, plan_crop,
    sample_background, select_classifier, whole_image,
};

fn px(red: u8, green: u8, blue: u8, alpha: u8) -> Pixel {
    Pixel { red, green, blue, alpha }
}

fn canvas_of(width: u32, height: u32, fill: Pixel, marks: &[(u32, u32, Pixel)]) -> Canvas {
    let mut data = Vec::new();
    for y in 0..height {
        for x in 0..width {
            let mut p = fill;
            for (mx, my, mp) in marks {
                if *mx == x && *my == y {
                    p = *mp;
                }
            }
            data.push(p.red);
            data.push(p.green);
            data.push(p.blue);
            data.push(p.alpha);
        }
    }
    Canvas::from_raw(width, height, data).unwrap()
}

fn pixels_of(img: &Canvas) -> Vec<Pixel> {
    let mut all = Vec::new();
    for y in 0..img.height() {
        for x in 0..img.width() {
            all.push(img.get_pixel(x, y));
        }
    }
    all
}

#[test]
fn alpha_only_crops_to_the_two_opaque_pixels() {
    let img = canvas_of(
        4,
        4,
        px(0, 0, 0, 0),
        &[(1, 1, px(255, 0, 0, 255)), (2, 2, px(0, 255, 0, 255))],
    );
    let bounds = find_content_bounds(&img, ClassificationMode::AlphaOnly);
    assert_eq!(bounds, ContentBounds { minx: 1, maxx: 2, miny: 1, maxy: 2 });
    let out = crop_to_content(&img, true, ClassificationMode::AlphaOnly).unwrap();
    assert_eq!(out.width(), 2);
    assert_eq!(out.height(), 2);
    assert_eq!(
        pixels_of(&out),
        vec![px(255, 0, 0, 255), px(0, 0, 0, 0), px(0, 0, 0, 0), px(0, 255, 0, 255)]
    );
}

#[test]
fn sampled_background_crops_to_the_interior_pixel() {
    let img = canvas_of(3, 3, px(10, 10, 10, 255), &[(1, 1, px(20, 20, 20, 255))]);
    assert_eq!(sample_background(&img), BackgroundSample::Resolved(px(10, 10, 10, 255)));
    let bounds = find_content_bounds(&img, ClassificationMode::SampleBackground);
    assert_eq!(bounds, ContentBounds { minx: 1, maxx: 1, miny: 1, maxy: 1 });
    assert_eq!(find_boundaries(&img), bounds);
    let out = crop_to_content(&img, true, ClassificationMode::SampleBackground).unwrap();
    assert_eq!(out.width(), 1);
    assert_eq!(out.height(), 1);
    assert_eq!(pixels_of(&out), vec![px(20, 20, 20, 255)]);
}

#[test]
fn all_content_leaves_the_size_unchanged() {
    let img = canvas_of(5, 3, px(1, 2, 3, 4), &[(2, 1, px(9, 9, 9, 9))]);
    let whole = ContentBounds { minx: 0, maxx: 4, miny: 0, maxy: 2 };
    assert_eq!(find_content_bounds(&img, ClassificationMode::AlphaOnly), whole);
    let out = crop_to_content(&img, true, ClassificationMode::AlphaOnly).unwrap();
    assert_eq!(out.width(), 5);
    assert_eq!(out.height(), 3);
    assert_eq!(pixels_of(&out), pixels_of(&img));
}

#[test]
fn single_content_pixel_gives_a_crop_of_one_by_one() {
    let img = canvas_of(7, 6, px(3, 3, 3, 0), &[(5, 4, px(3, 3, 3, 7))]);
    let bounds = find_content_bounds(&img, ClassificationMode::AlphaOnly);
    assert_eq!(bounds, ContentBounds { minx: 5, maxx: 5, miny: 4, maxy: 4 });
    assert_eq!(bounds.width(), 1);
    assert_eq!(bounds.height(), 1);
    let sampled = find_content_bounds(&img, ClassificationMode::SampleBackground);
    assert_eq!(sampled, ContentBounds { minx: 5, maxx: 5, miny: 4, maxy: 4 });
    let out = crop_to_content(&img, true, ClassificationMode::SampleBackground).unwrap();
    assert_eq!(pixels_of(&out), vec![px(3, 3, 3, 7)]);
}

#[test]
fn cropping_twice_is_cropping_once() {
    let img = canvas_of(
        6,
        6,
        px(0, 0, 0, 0),
        &[(1, 2, px(1, 1, 1, 255)), (4, 3, px(2, 2, 2, 128)), (3, 4, px(3, 3, 3, 1))],
    );
    let once = crop_to_content(&img, true, ClassificationMode::AlphaOnly).unwrap();
    assert_eq!(once.width(), 4);
    assert_eq!(once.height(), 3);
    let twice = crop_to_content(&once, true, ClassificationMode::AlphaOnly).unwrap();
    assert_eq!(twice.width(), once.width());
    assert_eq!(twice.height(), once.height());
    assert_eq!(pixels_of(&twice), pixels_of(&once));
    assert_eq!(
        find_content_bounds(&once, ClassificationMode::AlphaOnly),
        ContentBounds { minx: 0, maxx: 3, miny: 0, maxy: 2 }
    );
}

#[test]
fn uniform_image_keeps_the_whole_image() {
    let img = canvas_of(4, 5, px(10, 10, 10, 255), &[]);
    let whole = ContentBounds { minx: 0, maxx: 3, miny: 0, maxy: 4 };
    assert_eq!(find_content_bounds(&img, ClassificationMode::SampleBackground), whole);
    assert_eq!(find_boundaries(&img), whole);
    let out = crop_to_content(&img, false, ClassificationMode::SampleBackground).unwrap();
    assert_eq!(out.width(), 4);
    assert_eq!(out.height(), 5);
    assert_eq!(pixels_of(&out), pixels_of(&img));
}

#[test]
fn fully_transparent_image_keeps_the_whole_image() {
    let img = canvas_of(3, 2, px(50, 60, 70, 0), &[(1, 1, px(0, 0, 0, 0))]);
    let whole = ContentBounds { minx: 0, maxx: 2, miny: 0, maxy: 1 };
    assert_eq!(find_content_bounds(&img, ClassificationMode::AlphaOnly), whole);
    let out = crop_to_content(&img, true, ClassificationMode::AlphaOnly).unwrap();
    assert_eq!(pixels_of(&out), pixels_of(&img));
}

#[test]
fn ambiguous_corners_keep_the_whole_image() {
    let img = canvas_of(
        4,
        4,
        px(0, 0, 0, 255),
        &[(3, 3, px(255, 255, 255, 255)), (1, 1, px(9, 9, 9, 9))],
    );
    assert_eq!(sample_background(&img), BackgroundSample::Ambiguous);
    assert_eq!(select_classifier(&img, ClassificationMode::SampleBackground), None);
    let whole = ContentBounds { minx: 0, maxx: 3, miny: 0, maxy: 3 };
    assert_eq!(find_boundaries(&img), whole);
    assert_eq!(find_content_bounds(&img, ClassificationMode::SampleBackground), whole);
    let out = crop_to_content(&img, true, ClassificationMode::SampleBackground).unwrap();
    assert_eq!(pixels_of(&out), pixels_of(&img));
}

#[test]
fn ambiguous_corners_do_not_matter_in_alpha_mode() {
    let img = canvas_of(
        3,
        3,
        px(0, 0, 0, 0),
        &[(0, 0, px(1, 1, 1, 255)), (2, 2, px(2, 2, 2, 255)), (1, 0, px(0, 0, 0, 0))],
    );
    assert_eq!(select_classifier(&img, ClassificationMode::AlphaOnly), Some(Classifier::Alpha));
    assert_eq!(
        find_content_bounds(&img, ClassificationMode::AlphaOnly),
        ContentBounds { minx: 0, maxx: 2, miny: 0, maxy: 2 }
    );
}

#[test]
fn transparent_topleft_is_sampled_against_an_opaque_bottomright() {
    let img = canvas_of(
        4,
        3,
        px(0, 0, 0, 0),
        &[(3, 2, px(200, 0, 0, 255)), (2, 1, px(0, 200, 0, 255))],
    );
    assert_eq!(sample_background(&img), BackgroundSample::Resolved(px(0, 0, 0, 0)));
    assert_eq!(
        select_classifier(&img, ClassificationMode::SampleBackground),
        Some(Classifier::Sample(px(0, 0, 0, 0)))
    );
    assert_eq!(find_boundaries(&img), ContentBounds { minx: 2, maxx: 3, miny: 1, maxy: 2 });
}

#[test]
fn transparent_bottomright_is_sampled_against_an_opaque_topleft() {
    let clear = px(8, 8, 8, 0);
    let img = canvas_of(4, 3, clear, &[(0, 0, px(200, 0, 0, 255)), (1, 1, px(0, 200, 0, 255))]);
    assert_eq!(sample_background(&img), BackgroundSample::Resolved(clear));
    assert_eq!(find_boundaries(&img), ContentBounds { minx: 0, maxx: 1, miny: 0, maxy: 1 });
}

#[test]
fn sample_mode_tells_transparent_colours_apart() {
    let img = canvas_of(3, 3, px(0, 0, 0, 0), &[(1, 2, px(1, 0, 0, 0))]);
    assert_eq!(
        find_content_bounds(&img, ClassificationMode::SampleBackground),
        ContentBounds { minx: 1, maxx: 1, miny: 2, maxy: 2 }
    );
    assert_eq!(
        find_content_bounds(&img, ClassificationMode::AlphaOnly),
        ContentBounds { minx: 0, maxx: 2, miny: 0, maxy: 2 }
    );
}

#[test]
fn single_pixel_image_is_kept() {
    let img = canvas_of(1, 1, px(4, 5, 6, 7), &[]);
    let whole = ContentBounds { minx: 0, maxx: 0, miny: 0, maxy: 0 };
    assert_eq!(find_boundaries(&img), whole);
    assert_eq!(find_content_bounds(&img, ClassificationMode::AlphaOnly), whole);
    assert_eq!(whole_image(&img), whole);
}

#[test]
fn alpha_mode_without_an_alpha_channel_is_a_no_op() {
    let img = canvas_of(3, 3, px(0, 0, 0, 255), &[]);
    assert_eq!(plan_crop(&img, false, ClassificationMode::AlphaOnly), None);
    assert!(crop_to_content(&img, false, ClassificationMode::AlphaOnly).is_none());
}

#[test]
fn alpha_mode_with_an_alpha_channel_plans_the_bounds() {
    let img = canvas_of(3, 3, px(0, 0, 0, 0), &[(2, 0, px(0, 0, 0, 3))]);
    assert_eq!(
        plan_crop(&img, true, ClassificationMode::AlphaOnly),
        Some(ContentBounds { minx: 2, maxx: 2, miny: 0, maxy: 0 })
    );
}

#[test]
fn sample_mode_needs_no_alpha_channel() {
    let img = canvas_of(3, 3, px(0, 0, 0, 255), &[(0, 1, px(5, 5, 5, 255))]);
    let bounds = ContentBounds { minx: 0, maxx: 0, miny: 1, maxy: 1 };
    assert_eq!(plan_crop(&img, false, ClassificationMode::SampleBackground), Some(bounds));
    assert_eq!(plan_crop(&img, true, ClassificationMode::SampleBackground), Some(bounds));
    let out = crop_to_content(&img, false, ClassificationMode::SampleBackground).unwrap();
    assert_eq!(pixels_of(&out), vec![px(5, 5, 5, 255)]);
}

#[test]
fn whole_image_covers_every_pixel() {
    let img = canvas_of(6, 2, px(0, 0, 0, 0), &[]);
    assert_eq!(whole_image(&img), ContentBounds { minx: 0, maxx: 5, miny: 0, maxy: 1 });
}

#[test]
fn crop_to_bounds_cuts_the_rectangle() {
    let img = canvas_of(4, 4, px(0, 0, 0, 0), &[(2, 1, px(1, 1, 1, 1)), (3, 2, px(2, 2, 2, 2))]);
    let out = crop_to_bounds(&img, &ContentBounds { minx: 2, maxx: 3, miny: 1, maxy: 2 }).unwrap();
    assert_eq!(out.width(), 2);
    assert_eq!(out.height(), 2);
    assert_eq!(
        pixels_of(&out),
        vec![px(1, 1, 1, 1), px(0, 0, 0, 0), px(0, 0, 0, 0), px(2, 2, 2, 2)]
    );
}

#[test]
fn crop_to_bounds_refuses_bounds_outside_the_image() {
    let img = canvas_of(4, 4, px(0, 0, 0, 0), &[]);
    assert!(crop_to_bounds(&img, &ContentBounds { minx: 0, maxx: 4, miny: 0, maxy: 3 }).is_none());
    assert!(crop_to_bounds(&img, &ContentBounds { minx: 0, maxx: 3, miny: 0, maxy: 4 }).is_none());
    assert!(crop_to_bounds(&img, &ContentBounds { minx: 2, maxx: 1, miny: 0, maxy: 3 }).is_none());
    assert!(crop_to_bounds(&img, &ContentBounds { minx: 0, maxx: 3, miny: 3, maxy: 2 }).is_none());
    assert!(
        crop_to_bounds(&img, &ContentBounds { minx: 4, maxx: 0, miny: 4, maxy: 0 }).is_none()
    );
    assert!(crop_to_bounds(
        &img,
        &ContentBounds { minx: 0, maxx: u32::MAX, miny: 0, maxy: u32::MAX }
    )
    .is_none());
}
