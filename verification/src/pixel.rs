//! Pixels and the per-pixel decision between background and content.

use vstd::prelude::*;

verus! {

/// One RGBA pixel: four independent 8-bit channels, compared channel by channel.
#[derive(Clone, Copy, Debug, PartialEq, Eq, Structural)]
pub struct Pixel {
    pub red: u8,
    pub green: u8,
    pub blue: u8,
    pub alpha: u8,
}

/// What a pixel counts as: kept, or cropped away.
#[derive(Clone, Copy, Debug, PartialEq, Eq, Structural)]
pub enum PixelClass {
    Content,
    Background,
}

/// How background is told from content, chosen once per run.
#[derive(Clone, Copy, Debug, PartialEq, Eq, Structural)]
pub enum ClassificationMode {
    /// Background is exactly the fully transparent pixels.
    AlphaOnly,
    /// Background is the colour sampled from the image's corners.
    SampleBackground,
}

/// A strategy ready to classify pixels.
#[derive(Clone, Copy, Debug, PartialEq, Eq, Structural)]
pub enum Classifier {
    /// A pixel is background iff its alpha channel is zero.
    Alpha,
    /// A pixel is background iff it equals the sample in all four channels.
    Sample(Pixel),
}

/// The outcome of sampling the background from two opposite corners.
#[derive(Clone, Copy, Debug, PartialEq, Eq, Structural)]
pub enum BackgroundSample {
    /// The corners settle on this pixel as the background.
    Resolved(Pixel),
    /// The corners disagree and neither is transparent: cropping is unsafe.
    Ambiguous,
}

/// Whether `pixel` is background under `classifier`.
pub open spec fn is_background(pixel: Pixel, classifier: Classifier) -> bool {
    match classifier {
        Classifier::Alpha => pixel.alpha == 0,
        Classifier::Sample(sample) => pixel == sample,
    }
}

/// Whether `pixel` is content under `classifier`.
pub open spec fn is_content(pixel: Pixel, classifier: Classifier) -> bool {
    !is_background(pixel, classifier)
}

/// The background sample that two opposite corners give: the shared value
/// where they agree, else whichever is fully transparent (the top-left one
/// first), else none.
pub open spec fn sample_of(topleft: Pixel, bottomright: Pixel) -> BackgroundSample {
    if topleft == bottomright {
        BackgroundSample::Resolved(topleft)
    } else if topleft.alpha == 0 {
        BackgroundSample::Resolved(topleft)
    } else if bottomright.alpha == 0 {
        BackgroundSample::Resolved(bottomright)
    } else {
        BackgroundSample::Ambiguous
    }
}

/// Classifies one pixel.
///
/// Under `Classifier::Alpha` the colour channels play no part: alpha zero is
/// background whatever the colour, and any other alpha, however faint, is
/// content.
pub fn classify(pixel: Pixel, classifier: Classifier) -> (class: PixelClass)
    ensures
        class == PixelClass::Background <==> is_background(pixel, classifier),
        class == PixelClass::Content <==> is_content(pixel, classifier),
        classifier == Classifier::Alpha ==> (class == PixelClass::Background <==> pixel.alpha == 0),
{
    let background = match classifier {
        Classifier::Alpha => pixel.alpha == 0,
        Classifier::Sample(sample) => pixel == sample,
    };
    if background {
        PixelClass::Background
    } else {
        PixelClass::Content
    }
}

/// Resolves the background sample from the top-left and bottom-right pixels.
pub fn resolve_sample(topleft: Pixel, bottomright: Pixel) -> (sample: BackgroundSample)
    ensures
        sample == sample_of(topleft, bottomright),
        topleft == bottomright ==> sample == BackgroundSample::Resolved(topleft),
        topleft != bottomright && topleft.alpha != 0 && bottomright.alpha != 0 ==> sample
            == BackgroundSample::Ambiguous,
{
    if topleft == bottomright {
        BackgroundSample::Resolved(topleft)
    } else if topleft.alpha == 0 {
        BackgroundSample::Resolved(topleft)
    } else if bottomright.alpha == 0 {
        BackgroundSample::Resolved(bottomright)
    } else {
        BackgroundSample::Ambiguous
    }
}

} // verus!
