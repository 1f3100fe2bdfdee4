//! Planning a crop: which strategy classifies the pixels, what bounds the
//! scan gives, and the image cut down to them.

use vstd::prelude::*;
use crate::bounds::{content_bounds, full_bounds, BoundsAccumulator, ContentBounds};
use crate::canvas::{carries_alpha, decoded_has_alpha, rgba_rows, Canvas};
use crate::grid::{grid_height, grid_width, is_grid, sub_grid};
use crate::pixel::{
    resolve_sample, sample_of, BackgroundSample, ClassificationMode, Classifier, Pixel,
};

verus! {

/// Whether a mode can only work on images that carry an alpha channel.
pub open spec fn requires_alpha(mode: ClassificationMode) -> bool {
    mode == ClassificationMode::AlphaOnly
}

/// The background sample that the top-left and bottom-right pixels of a grid
/// give.
pub open spec fn corner_sample(rows: Seq<Seq<Pixel>>) -> BackgroundSample {
    sample_of(rows[0][0], rows[grid_height(rows) - 1][grid_width(rows) - 1])
}

/// The strategy that classifies the pixels of a grid under `mode`, if there
/// is one: with `SampleBackground` there is none where the corners give no
/// sample.
pub open spec fn selected_classifier(rows: Seq<Seq<Pixel>>, mode: ClassificationMode) -> Option<
    Classifier,
> {
    match mode {
        ClassificationMode::AlphaOnly => Some(Classifier::Alpha),
        ClassificationMode::SampleBackground => match corner_sample(rows) {
            BackgroundSample::Resolved(sample) => Some(Classifier::Sample(sample)),
            BackgroundSample::Ambiguous => None,
        },
    }
}

/// The bounds to which a grid is cropped under `mode`: the bounds of its
/// content under the selected strategy, or the whole grid where there is no
/// strategy.
pub open spec fn planned_bounds(rows: Seq<Seq<Pixel>>, mode: ClassificationMode) -> ContentBounds {
    match selected_classifier(rows, mode) {
        Some(classifier) => content_bounds(rows, classifier),
        None => full_bounds(rows),
    }
}

/// The part of a grid that lies inside `bounds`.
pub open spec fn crop_of(rows: Seq<Seq<Pixel>>, bounds: ContentBounds) -> Seq<Seq<Pixel>> {
    sub_grid(
        rows,
        bounds.minx as int,
        bounds.miny as int,
        bounds.spec_width() as nat,
        bounds.spec_height() as nat,
    )
}

/// A grid cropped to its content under `mode`.
pub open spec fn cropped(rows: Seq<Seq<Pixel>>, mode: ClassificationMode) -> Seq<Seq<Pixel>> {
    crop_of(rows, planned_bounds(rows, mode))
}

/// Samples the background from the image's top-left and bottom-right pixels.
pub fn sample_background(img: &Canvas) -> (sample: BackgroundSample)
    ensures
        sample == corner_sample(img@),
{
    let width = img.width();
    let height = img.height();
    let topleft = img.get_pixel(0, 0);
    let bottomright = img.get_pixel(width - 1, height - 1);
    resolve_sample(topleft, bottomright)
}

/// Selects the strategy that classifies the pixels of `img` under `mode`.
/// `None` means that the background is ambiguous and the image is to be left
/// as it is.
pub fn select_classifier(img: &Canvas, mode: ClassificationMode) -> (selected: Option<Classifier>)
    ensures
        selected == selected_classifier(img@, mode),
{
    match mode {
        ClassificationMode::AlphaOnly => Some(Classifier::Alpha),
        ClassificationMode::SampleBackground => match sample_background(img) {
            BackgroundSample::Resolved(sample) => Some(Classifier::Sample(sample)),
            BackgroundSample::Ambiguous => None,
        },
    }
}

/// The bounds that cover the whole image.
pub fn whole_image(img: &Canvas) -> (bounds: ContentBounds)
    ensures
        bounds == full_bounds(img@),
        bounds.within(img@),
        is_grid(img@),
{
    ContentBounds { minx: 0, maxx: img.width() - 1, miny: 0, maxy: img.height() - 1 }
}

/// The bounds of an image's content under `mode`.
///
/// Where the mode has no strategy for the image, because its background is
/// ambiguous, the image is not scanned and the bounds cover all of it. The
/// bounds also cover all of it where the scan finds no content.
pub fn find_content_bounds(img: &Canvas, mode: ClassificationMode) -> (bounds: ContentBounds)
    ensures
        bounds == planned_bounds(img@, mode),
        bounds.within(img@),
        is_grid(img@),
{
    match select_classifier(img, mode) {
        Some(classifier) => BoundsAccumulator::compute(img, classifier),
        None => whole_image(img),
    }
}

/// The bounds of an image's content where the background is sampled from its
/// corners: the bounds of the pixels that differ from the sample, or the
/// whole image where the corners give no sample or no pixel differs.
pub fn find_boundaries(img: &Canvas) -> (bounds: ContentBounds)
    ensures
        bounds == planned_bounds(img@, ClassificationMode::SampleBackground),
        bounds.within(img@),
        is_grid(img@),
        corner_sample(img@) == BackgroundSample::Ambiguous ==> bounds == full_bounds(img@),
        forall|sample: Pixel|
            corner_sample(img@) == BackgroundSample::Resolved(sample) ==> bounds == content_bounds(
                img@,
                Classifier::Sample(sample),
            ),
{
    find_content_bounds(img, ClassificationMode::SampleBackground)
}

/// Decides what to do with a decoded image: `None` where the mode needs an
/// alpha channel and the image's format carries none, so that nothing is
/// written; else the bounds to crop to.
pub fn plan_crop(img: &Canvas, has_alpha: bool, mode: ClassificationMode) -> (plan: Option<
    ContentBounds,
>)
    ensures
        plan is None <==> requires_alpha(mode) && !has_alpha,
        plan matches Some(bounds) ==> bounds == planned_bounds(img@, mode) && bounds.within(img@)
            && is_grid(img@),
{
    if mode == ClassificationMode::AlphaOnly && !has_alpha {
        None
    } else {
        Some(find_content_bounds(img, mode))
    }
}

/// Cuts an image down to `bounds`, if they lie inside it.
pub fn crop_to_bounds(img: &Canvas, bounds: &ContentBounds) -> (cut: Option<Canvas>)
    ensures
        cut is Some <==> bounds.within(img@),
        cut matches Some(canvas) ==> canvas@ == crop_of(img@, *bounds) && is_grid(canvas@),
{
    if bounds.minx > bounds.maxx || bounds.miny > bounds.maxy || bounds.maxx >= img.width()
        || bounds.maxy >= img.height() {
        return None;
    }
    img.crop(bounds.minx, bounds.miny, bounds.width(), bounds.height())
}

/// Crops a decoded image to its content under `mode`.
///
/// `None` where the mode needs an alpha channel and the image's format
/// carries none: the operation is then a no-op and nothing is to be written.
/// Else the cropped image, which is the whole image where no reduction is
/// possible.
pub fn crop_to_content(img: &Canvas, has_alpha: bool, mode: ClassificationMode) -> (cut: Option<
    Canvas,
>)
    ensures
        cut is None <==> requires_alpha(mode) && !has_alpha,
        cut matches Some(canvas) ==> canvas@ == cropped(img@, mode) && is_grid(canvas@),
{
    match plan_crop(img, has_alpha, mode) {
        Some(bounds) => crop_to_bounds(img, &bounds),
        None => None,
    }
}

/// Crops a decoded image of any colour model to its content under `mode`.
///
/// The image is converted to 8-bit RGBA, cropped, and handed back ready to be
/// encoded. `None` means that nothing is to be written: the mode needs an
/// alpha channel and the image's format carries none, or the image has no
/// pixels.
pub fn crop_decoded(decoded: image::DynamicImage, mode: ClassificationMode) -> (cut: Option<
    image::DynamicImage,
>)
    ensures
        cut is Some <==> is_grid(rgba_rows(decoded)) && !(requires_alpha(mode) && !carries_alpha(
            decoded,
        )),
        cut matches Some(out) ==> rgba_rows(out) == cropped(rgba_rows(decoded), mode)
            && carries_alpha(out),
{
    let has_alpha = decoded_has_alpha(&decoded);
    match Canvas::from_decoded(decoded) {
        Some(img) => match crop_to_content(&img, has_alpha, mode) {
            Some(canvas) => Some(canvas.into_decoded()),
            None => None,
        },
        None => None,
    }
}

} // verus!
