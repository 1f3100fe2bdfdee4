//! What holds of content bounds and of cropping, for every grid.

use vstd::prelude::*;
use crate::bounds::{
    content_at, content_bounds, full_bounds, has_content, is_bounding_box,
    lemma_bounding_box_is_content_bounds, ContentBounds,
};
use crate::grid::{grid_height, grid_width, in_grid, is_grid};
use crate::pixel::{is_content, BackgroundSample, ClassificationMode, Classifier, Pixel};
use crate::planner::{corner_sample, crop_of, cropped, planned_bounds, selected_classifier};

verus! {

/// Column `x` holds a content pixel.
spec fn column_has_content(rows: Seq<Seq<Pixel>>, classifier: Classifier, x: int) -> bool {
    exists|y: int| content_at(rows, classifier, x, y)
}

/// Row `y` holds a content pixel.
spec fn row_has_content(rows: Seq<Seq<Pixel>>, classifier: Classifier, y: int) -> bool {
    exists|x: int| content_at(rows, classifier, x, y)
}

/// Below a number that satisfies a predicate there is a least one that does.
proof fn lemma_least(holds: spec_fn(int) -> bool, from: int) -> (least: int)
    requires
        0 <= from,
        holds(from),
    ensures
        0 <= least <= from,
        holds(least),
        forall|k: int| 0 <= k < least ==> !#[trigger] holds(k),
    decreases from,
{
    if exists|k: int| 0 <= k < from && #[trigger] holds(k) {
        let k = choose|k: int| 0 <= k < from && #[trigger] holds(k);
        lemma_least(holds, k)
    } else {
        from
    }
}

/// Below a bound, above a number that satisfies a predicate, there is a
/// greatest one that does.
proof fn lemma_greatest(holds: spec_fn(int) -> bool, from: int, bound: int) -> (greatest: int)
    requires
        from < bound,
        holds(from),
    ensures
        from <= greatest < bound,
        holds(greatest),
        forall|k: int| greatest < k < bound ==> !#[trigger] holds(k),
    decreases bound - from,
{
    if exists|k: int| from < k < bound && #[trigger] holds(k) {
        let k = choose|k: int| from < k < bound && #[trigger] holds(k);
        lemma_greatest(holds, k, bound)
    } else {
        from
    }
}

/// The content of a grid, where there is any, has a bounding box, and the
/// content bounds are that box.
pub proof fn lemma_content_has_bounding_box(rows: Seq<Seq<Pixel>>, classifier: Classifier)
    requires
        is_grid(rows),
        has_content(rows, classifier),
    ensures
        is_bounding_box(content_bounds(rows, classifier), rows, classifier),
{
    let (x, y) = choose|x: int, y: int| content_at(rows, classifier, x, y);
    let in_column = |k: int| column_has_content(rows, classifier, k);
    let in_row = |k: int| row_has_content(rows, classifier, k);
    let minx = lemma_least(in_column, x);
    let maxx = lemma_greatest(in_column, x, grid_width(rows) as int);
    let miny = lemma_least(in_row, y);
    let maxy = lemma_greatest(in_row, y, grid_height(rows) as int);
    let bounds = ContentBounds {
        minx: minx as u32,
        maxx: maxx as u32,
        miny: miny as u32,
        maxy: maxy as u32,
    };
    assert(bounds.minx == minx && bounds.maxx == maxx && bounds.miny == miny && bounds.maxy == maxy);
    assert forall|i: int, j: int| content_at(rows, classifier, i, j) implies bounds.covers(
        i,
        j,
    ) by {
        assert(in_column(i));
        assert(in_row(j));
    }
    lemma_bounding_box_is_content_bounds(bounds, rows, classifier);
}

/// The content bounds of a grid lie inside it.
pub proof fn lemma_content_bounds_within(rows: Seq<Seq<Pixel>>, classifier: Classifier)
    requires
        is_grid(rows),
    ensures
        content_bounds(rows, classifier).within(rows),
{
    if has_content(rows, classifier) {
        lemma_content_has_bounding_box(rows, classifier);
    }
}

/// Where every pixel of a grid is content, the content bounds cover the whole
/// grid: cropping leaves its size unchanged.
pub proof fn lemma_all_content_gives_full_bounds(rows: Seq<Seq<Pixel>>, classifier: Classifier)
    requires
        is_grid(rows),
        forall|x: int, y: int| #[trigger] in_grid(rows, x, y) ==> is_content(rows[y][x], classifier),
    ensures
        content_bounds(rows, classifier) == full_bounds(rows),
{
    let full = full_bounds(rows);
    let right = grid_width(rows) - 1;
    let bottom = grid_height(rows) - 1;
    assert(in_grid(rows, 0, 0));
    assert(in_grid(rows, right, 0));
    assert(in_grid(rows, 0, bottom));
    assert(content_at(rows, classifier, right, 0));
    assert(content_at(rows, classifier, 0, bottom));
    assert forall|i: int, j: int| content_at(rows, classifier, i, j) implies full.covers(i, j) by {}
    assert(full.within(rows));
    lemma_bounding_box_is_content_bounds(full, rows, classifier);
}

/// Where exactly one pixel of a grid is content, the content bounds are that
/// pixel alone: a crop of one by one.
pub proof fn lemma_single_content_pixel_bounds(
    rows: Seq<Seq<Pixel>>,
    classifier: Classifier,
    x0: u32,
    y0: u32,
)
    requires
        is_grid(rows),
        content_at(rows, classifier, x0 as int, y0 as int),
        forall|x: int, y: int| #[trigger]
            content_at(rows, classifier, x, y) ==> x == x0 && y == y0,
    ensures
        content_bounds(rows, classifier) == (ContentBounds {
            minx: x0,
            maxx: x0,
            miny: y0,
            maxy: y0,
        }),
{
    let bounds = ContentBounds { minx: x0, maxx: x0, miny: y0, maxy: y0 };
    assert(bounds.within(rows));
    lemma_bounding_box_is_content_bounds(bounds, rows, classifier);
}

/// Where the two sampled corners are equal and no pixel differs from them,
/// the bounds under `SampleBackground` cover the whole grid.
pub proof fn lemma_uniform_grid_keeps_full_bounds(rows: Seq<Seq<Pixel>>)
    requires
        is_grid(rows),
        forall|x: int, y: int| #[trigger] in_grid(rows, x, y) ==> rows[y][x] == rows[0][0],
    ensures
        planned_bounds(rows, ClassificationMode::SampleBackground) == full_bounds(rows),
{
    let right = grid_width(rows) - 1;
    let bottom = grid_height(rows) - 1;
    assert(in_grid(rows, right, bottom));
    let classifier = Classifier::Sample(rows[0][0]);
    assert forall|x: int, y: int| !content_at(rows, classifier, x, y) by {}
}

/// Where the two sampled corners differ and neither is fully transparent,
/// the bounds under `SampleBackground` cover the whole grid, whatever the
/// other pixels hold.
pub proof fn lemma_ambiguous_background_keeps_full_bounds(rows: Seq<Seq<Pixel>>)
    requires
        is_grid(rows),
        rows[0][0] != rows[grid_height(rows) - 1][grid_width(rows) - 1],
        rows[0][0].alpha != 0,
        rows[grid_height(rows) - 1][grid_width(rows) - 1].alpha != 0,
    ensures
        corner_sample(rows) == BackgroundSample::Ambiguous,
        selected_classifier(rows, ClassificationMode::SampleBackground) is None,
        planned_bounds(rows, ClassificationMode::SampleBackground) == full_bounds(rows),
{
}

/// Cropping a grid to bounds inside it gives a grid.
pub proof fn lemma_crop_is_grid(rows: Seq<Seq<Pixel>>, bounds: ContentBounds)
    requires
        is_grid(rows),
        bounds.within(rows),
    ensures
        is_grid(crop_of(rows, bounds)),
        grid_width(crop_of(rows, bounds)) == bounds.spec_width(),
        grid_height(crop_of(rows, bounds)) == bounds.spec_height(),
{
    let cut = crop_of(rows, bounds);
    assert forall|j: int| 0 <= j < cut.len() implies (#[trigger] cut[j]).len()
        == bounds.spec_width() by {}
}

/// Cropping a grid to the bounds that cover all of it changes nothing.
pub proof fn lemma_full_crop_is_identity(rows: Seq<Seq<Pixel>>)
    requires
        is_grid(rows),
    ensures
        crop_of(rows, full_bounds(rows)) == rows,
{
    let cut = crop_of(rows, full_bounds(rows));
    assert forall|j: int| 0 <= j < rows.len() implies cut[j] == rows[j] by {}
}

/// A grid cropped to the bounds of its content is minimal: under the same
/// strategy, the content bounds of the result cover all of it.
pub proof fn lemma_cropped_content_is_minimal(rows: Seq<Seq<Pixel>>, classifier: Classifier)
    requires
        is_grid(rows),
    ensures
        content_bounds(crop_of(rows, content_bounds(rows, classifier)), classifier) == full_bounds(
            crop_of(rows, content_bounds(rows, classifier)),
        ),
{
    let bounds = content_bounds(rows, classifier);
    let cut = crop_of(rows, bounds);
    lemma_content_bounds_within(rows, classifier);
    lemma_crop_is_grid(rows, bounds);
    assert forall|i: int, j: int| in_grid(cut, i, j) implies in_grid(
        rows,
        bounds.minx + i,
        bounds.miny + j,
    ) && cut[j][i] == rows[bounds.miny + j][bounds.minx + i] by {}
    if has_content(rows, classifier) {
        lemma_content_has_bounding_box(rows, classifier);
        let full = full_bounds(cut);
        let left = choose|y: int| content_at(rows, classifier, bounds.minx as int, y);
        let right = choose|y: int| content_at(rows, classifier, bounds.maxx as int, y);
        let top = choose|x: int| content_at(rows, classifier, x, bounds.miny as int);
        let bottom = choose|x: int| content_at(rows, classifier, x, bounds.maxy as int);
        assert(bounds.covers(bounds.minx as int, left));
        assert(bounds.covers(bounds.maxx as int, right));
        assert(bounds.covers(top, bounds.miny as int));
        assert(bounds.covers(bottom, bounds.maxy as int));
        assert(content_at(cut, classifier, 0, left - bounds.miny));
        assert(content_at(cut, classifier, bounds.maxx - bounds.minx, right - bounds.miny));
        assert(content_at(cut, classifier, top - bounds.minx, 0));
        assert(content_at(cut, classifier, bottom - bounds.minx, bounds.maxy - bounds.miny));
        assert forall|i: int, j: int| content_at(cut, classifier, i, j) implies full.covers(
            i,
            j,
        ) by {}
        assert(full.within(cut));
        lemma_bounding_box_is_content_bounds(full, cut, classifier);
    } else {
        assert forall|i: int, j: int| !content_at(cut, classifier, i, j) by {
            if in_grid(cut, i, j) {
                assert(!content_at(rows, classifier, bounds.minx + i, bounds.miny + j));
            }
        }
    }
}

/// Cropping to content is idempotent under a fixed strategy: a second crop of
/// the result gives the result again.
pub proof fn lemma_content_crop_idempotent(rows: Seq<Seq<Pixel>>, classifier: Classifier)
    requires
        is_grid(rows),
    ensures
        crop_of(
            crop_of(rows, content_bounds(rows, classifier)),
            content_bounds(crop_of(rows, content_bounds(rows, classifier)), classifier),
        ) == crop_of(rows, content_bounds(rows, classifier)),
{
    let cut = crop_of(rows, content_bounds(rows, classifier));
    lemma_content_bounds_within(rows, classifier);
    lemma_crop_is_grid(rows, content_bounds(rows, classifier));
    lemma_cropped_content_is_minimal(rows, classifier);
    lemma_full_crop_is_identity(cut);
}

/// Under `AlphaOnly`, an image that is already minimal is left as it is.
pub proof fn lemma_minimal_grid_is_unchanged(rows: Seq<Seq<Pixel>>)
    requires
        is_grid(rows),
        planned_bounds(rows, ClassificationMode::AlphaOnly) == full_bounds(rows),
    ensures
        cropped(rows, ClassificationMode::AlphaOnly) == rows,
{
    lemma_full_crop_is_identity(rows);
}

/// Under `AlphaOnly`, cropping twice gives what cropping once gives.
pub proof fn lemma_alpha_crop_idempotent(rows: Seq<Seq<Pixel>>)
    requires
        is_grid(rows),
    ensures
        cropped(cropped(rows, ClassificationMode::AlphaOnly), ClassificationMode::AlphaOnly)
            == cropped(rows, ClassificationMode::AlphaOnly),
{
    lemma_content_crop_idempotent(rows, Classifier::Alpha);
}

} // verus!
