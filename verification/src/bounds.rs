//! The bounding box of an image's content, and the scan that finds it.

use vstd::prelude::*;
use crate::canvas::Canvas;
use crate::grid::{grid_height, grid_width, in_grid, is_grid};
use crate::order::{max, min};
use crate::pixel::{classify, is_content, Classifier, Pixel, PixelClass};

verus! {

/// A rectangle of pixels, given by its first and last column and its first
/// and last row, all four inclusive.
#[derive(Clone, Copy, Debug, PartialEq, Eq, Structural)]
pub struct ContentBounds {
    pub minx: u32,
    pub maxx: u32,
    pub miny: u32,
    pub maxy: u32,
}

impl ContentBounds {
    /// The rectangle is not inverted and lies inside the grid.
    pub open spec fn within(&self, rows: Seq<Seq<Pixel>>) -> bool {
        &&& self.minx <= self.maxx < grid_width(rows)
        &&& self.miny <= self.maxy < grid_height(rows)
    }

    /// Column `x` of row `y` lies inside the rectangle.
    pub open spec fn covers(&self, x: int, y: int) -> bool {
        self.minx <= x <= self.maxx && self.miny <= y <= self.maxy
    }

    /// The number of columns that the rectangle spans.
    pub open spec fn spec_width(&self) -> int {
        self.maxx - self.minx + 1
    }

    /// The number of rows that the rectangle spans.
    pub open spec fn spec_height(&self) -> int {
        self.maxy - self.miny + 1
    }

    /// The number of columns that the rectangle spans.
    pub fn width(&self) -> (width: u32)
        requires
            self.minx <= self.maxx,
            self.maxx - self.minx < u32::MAX,
        ensures
            width == self.spec_width(),
    {
        self.maxx - self.minx + 1
    }

    /// The number of rows that the rectangle spans.
    pub fn height(&self) -> (height: u32)
        requires
            self.miny <= self.maxy,
            self.maxy - self.miny < u32::MAX,
        ensures
            height == self.spec_height(),
    {
        self.maxy - self.miny + 1
    }
}

/// The rectangle that covers a whole grid.
pub open spec fn full_bounds(rows: Seq<Seq<Pixel>>) -> ContentBounds {
    ContentBounds {
        minx: 0,
        maxx: (grid_width(rows) - 1) as u32,
        miny: 0,
        maxy: (grid_height(rows) - 1) as u32,
    }
}

/// Column `x` of row `y` lies inside the grid and holds content.
pub open spec fn content_at(rows: Seq<Seq<Pixel>>, classifier: Classifier, x: int, y: int) -> bool {
    in_grid(rows, x, y) && is_content(rows[y][x], classifier)
}

/// The grid holds at least one content pixel.
pub open spec fn has_content(rows: Seq<Seq<Pixel>>, classifier: Classifier) -> bool {
    exists|x: int, y: int| content_at(rows, classifier, x, y)
}

/// Every content pixel of the grid lies inside the rectangle.
pub open spec fn encloses_content(
    bounds: ContentBounds,
    rows: Seq<Seq<Pixel>>,
    classifier: Classifier,
) -> bool {
    forall|x: int, y: int| content_at(rows, classifier, x, y) ==> bounds.covers(x, y)
}

/// Each of the rectangle's four edges holds a content pixel.
pub open spec fn touches_content(
    bounds: ContentBounds,
    rows: Seq<Seq<Pixel>>,
    classifier: Classifier,
) -> bool {
    &&& exists|y: int| content_at(rows, classifier, bounds.minx as int, y)
    &&& exists|y: int| content_at(rows, classifier, bounds.maxx as int, y)
    &&& exists|x: int| content_at(rows, classifier, x, bounds.miny as int)
    &&& exists|x: int| content_at(rows, classifier, x, bounds.maxy as int)
}

/// The rectangle is the smallest one that encloses all content of the grid:
/// it encloses the content, and none of its edges can move inwards.
pub open spec fn is_bounding_box(
    bounds: ContentBounds,
    rows: Seq<Seq<Pixel>>,
    classifier: Classifier,
) -> bool {
    &&& bounds.within(rows)
    &&& encloses_content(bounds, rows, classifier)
    &&& touches_content(bounds, rows, classifier)
}

/// The bounds of a grid's content: its bounding box, or the whole grid where
/// no pixel is content.
pub open spec fn content_bounds(rows: Seq<Seq<Pixel>>, classifier: Classifier) -> ContentBounds {
    if has_content(rows, classifier) {
        choose|bounds: ContentBounds| is_bounding_box(bounds, rows, classifier)
    } else {
        full_bounds(rows)
    }
}

/// A grid's content has at most one bounding box.
pub proof fn lemma_bounding_box_unique(
    first: ContentBounds,
    second: ContentBounds,
    rows: Seq<Seq<Pixel>>,
    classifier: Classifier,
)
    requires
        is_bounding_box(first, rows, classifier),
        is_bounding_box(second, rows, classifier),
    ensures
        first == second,
{
    lemma_box_inside(first, second, rows, classifier);
    lemma_box_inside(second, first, rows, classifier);
}

/// A box whose edges touch content lies inside every box that encloses the
/// content.
proof fn lemma_box_inside(
    inner: ContentBounds,
    outer: ContentBounds,
    rows: Seq<Seq<Pixel>>,
    classifier: Classifier,
)
    requires
        touches_content(inner, rows, classifier),
        encloses_content(outer, rows, classifier),
    ensures
        outer.minx <= inner.minx,
        inner.maxx <= outer.maxx,
        outer.miny <= inner.miny,
        inner.maxy <= outer.maxy,
{
    let left = choose|y: int| content_at(rows, classifier, inner.minx as int, y);
    assert(outer.covers(inner.minx as int, left));
    let right = choose|y: int| content_at(rows, classifier, inner.maxx as int, y);
    assert(outer.covers(inner.maxx as int, right));
    let top = choose|x: int| content_at(rows, classifier, x, inner.miny as int);
    assert(outer.covers(top, inner.miny as int));
    let bottom = choose|x: int| content_at(rows, classifier, x, inner.maxy as int);
    assert(outer.covers(bottom, inner.maxy as int));
}

/// A bounding box, once found, is what `content_bounds` names.
pub proof fn lemma_bounding_box_is_content_bounds(
    bounds: ContentBounds,
    rows: Seq<Seq<Pixel>>,
    classifier: Classifier,
)
    requires
        is_bounding_box(bounds, rows, classifier),
    ensures
        has_content(rows, classifier),
        content_bounds(rows, classifier) == bounds,
{
    let chosen = choose|other: ContentBounds| is_bounding_box(other, rows, classifier);
    lemma_bounding_box_unique(chosen, bounds, rows, classifier);
}

/// The running state of one scan: the box of the content pixels reported so
/// far. Until the first report it holds an inverted box, first column and row
/// at the image's width and height, last column and row at zero.
#[derive(Clone, Copy, Debug)]
pub struct BoundsAccumulator {
    width: u32,
    height: u32,
    minx: u32,
    maxx: u32,
    miny: u32,
    maxy: u32,
}

impl View for BoundsAccumulator {
    type V = Option<ContentBounds>;

    /// The box of what was reported so far, if anything was.
    closed spec fn view(&self) -> Option<ContentBounds> {
        if self.minx > self.maxx {
            None
        } else {
            Some(
                ContentBounds {
                    minx: self.minx,
                    maxx: self.maxx,
                    miny: self.miny,
                    maxy: self.maxy,
                },
            )
        }
    }
}

/// The box that results from widening `seen` to take in column `x` of row `y`.
pub open spec fn widened(seen: Option<ContentBounds>, x: u32, y: u32) -> ContentBounds {
    match seen {
        None => ContentBounds { minx: x, maxx: x, miny: y, maxy: y },
        Some(bounds) => ContentBounds {
            minx: if x < bounds.minx {
                x
            } else {
                bounds.minx
            },
            maxx: if x > bounds.maxx {
                x
            } else {
                bounds.maxx
            },
            miny: if y < bounds.miny {
                y
            } else {
                bounds.miny
            },
            maxy: if y > bounds.maxy {
                y
            } else {
                bounds.maxy
            },
        },
    }
}

/// The order in which two pixels are reported makes no difference to the box.
pub proof fn lemma_widen_order_irrelevant(
    seen: Option<ContentBounds>,
    x1: u32,
    y1: u32,
    x2: u32,
    y2: u32,
)
    requires
        seen matches Some(bounds) ==> bounds.minx <= bounds.maxx && bounds.miny <= bounds.maxy,
    ensures
        widened(Some(widened(seen, x1, y1)), x2, y2) == widened(
            Some(widened(seen, x2, y2)),
            x1,
            y1,
        ),
{
}

impl BoundsAccumulator {
    /// The width of the image that is scanned.
    pub closed spec fn image_width(&self) -> u32 {
        self.width
    }

    /// The height of the image that is scanned.
    pub closed spec fn image_height(&self) -> u32 {
        self.height
    }

    /// The state is either the inverted box of a fresh accumulator or a box
    /// inside the image.
    pub closed spec fn wf(&self) -> bool {
        &&& self.width >= 1
        &&& self.height >= 1
        &&& if self.minx > self.maxx {
            &&& self.minx == self.width
            &&& self.maxx == 0
            &&& self.miny == self.height
            &&& self.maxy == 0
        } else {
            &&& self.maxx < self.width
            &&& self.miny <= self.maxy < self.height
        }
    }

    /// A fresh accumulator for an image of the given size, with nothing
    /// reported yet.
    pub fn new(width: u32, height: u32) -> (fresh: BoundsAccumulator)
        requires
            width >= 1,
            height >= 1,
        ensures
            fresh.wf(),
            fresh@ is None,
            fresh.image_width() == width,
            fresh.image_height() == height,
    {
        BoundsAccumulator { width, height, minx: width, maxx: 0, miny: height, maxy: 0 }
    }

    /// Reports a content pixel in column `x` of row `y`: the box grows by as
    /// much as it takes to hold it.
    pub fn widen(&mut self, x: u32, y: u32)
        requires
            old(self).wf(),
            x < old(self).image_width(),
            y < old(self).image_height(),
        ensures
            final(self).wf(),
            final(self)@ == Some(widened(old(self)@, x, y)),
            final(self).image_width() == old(self).image_width(),
            final(self).image_height() == old(self).image_height(),
    {
        self.minx = min(self.minx, x);
        self.maxx = max(self.maxx, x);
        self.miny = min(self.miny, y);
        self.maxy = max(self.maxy, y);
    }

    /// The result of the scan: the box of what was reported, or the whole
    /// image where nothing was.
    pub fn finish(&self) -> (bounds: ContentBounds)
        requires
            self.wf(),
        ensures
            bounds == match self@ {
                Some(seen) => seen,
                None => ContentBounds {
                    minx: 0,
                    maxx: (self.image_width() - 1) as u32,
                    miny: 0,
                    maxy: (self.image_height() - 1) as u32,
                },
            },
            bounds.minx <= bounds.maxx < self.image_width(),
            bounds.miny <= bounds.maxy < self.image_height(),
    {
        if self.minx > self.maxx {
            ContentBounds { minx: 0, maxx: self.width - 1, miny: 0, maxy: self.height - 1 }
        } else {
            ContentBounds { minx: self.minx, maxx: self.maxx, miny: self.miny, maxy: self.maxy }
        }
    }

    /// Scans every pixel of `img` once and returns the bounds of its content.
    ///
    /// Where the image holds content, the result is the smallest rectangle
    /// that encloses all of it. Where every pixel is background there is no
    /// such rectangle, and the result covers the whole image: nothing is
    /// cropped.
    pub fn compute(img: &Canvas, classifier: Classifier) -> (bounds: ContentBounds)
        ensures
            bounds == content_bounds(img@, classifier),
            bounds.within(img@),
            is_grid(img@),
            has_content(img@, classifier) ==> is_bounding_box(bounds, img@, classifier),
            !has_content(img@, classifier) ==> bounds == full_bounds(img@),
    {
        let width = img.width();
        let height = img.height();
        let mut acc = BoundsAccumulator::new(width, height);
        let ghost mut left: int = 0;
        let ghost mut right: int = 0;
        let ghost mut top: int = 0;
        let ghost mut bottom: int = 0;
        let mut y: u32 = 0;
        while y < height
            invariant
                is_grid(img@),
                width == grid_width(img@),
                height == grid_height(img@),
                y <= height,
                acc.wf(),
                acc.image_width() == width,
                acc.image_height() == height,
                forall|i: int, j: int|
                    j < y && #[trigger] content_at(img@, classifier, i, j) ==> acc@ is Some
                        && acc@.unwrap().covers(i, j),
                acc@ matches Some(seen) ==> {
                    &&& content_at(img@, classifier, seen.minx as int, left)
                    &&& content_at(img@, classifier, seen.maxx as int, right)
                    &&& content_at(img@, classifier, top, seen.miny as int)
                    &&& content_at(img@, classifier, bottom, seen.maxy as int)
                },
            decreases height - y,
        {
            let mut x: u32 = 0;
            while x < width
                invariant
                    is_grid(img@),
                    width == grid_width(img@),
                    height == grid_height(img@),
                    y < height,
                    x <= width,
                    acc.wf(),
                    acc.image_width() == width,
                    acc.image_height() == height,
                    forall|i: int, j: int|
                        (j < y || (j == y && i < x)) && #[trigger] content_at(
                            img@,
                            classifier,
                            i,
                            j,
                        ) ==> acc@ is Some && acc@.unwrap().covers(i, j),
                    acc@ matches Some(seen) ==> {
                        &&& content_at(img@, classifier, seen.minx as int, left)
                        &&& content_at(img@, classifier, seen.maxx as int, right)
                        &&& content_at(img@, classifier, top, seen.miny as int)
                        &&& content_at(img@, classifier, bottom, seen.maxy as int)
                    },
                decreases width - x,
            {
                let pixel = img.get_pixel(x, y);
                if classify(pixel, classifier) == PixelClass::Content {
                    let ghost before = acc@;
                    acc.widen(x, y);
                    proof {
                        if before is None || x < before.unwrap().minx {
                            left = y as int;
                        }
                        if before is None || x > before.unwrap().maxx {
                            right = y as int;
                        }
                        if before is None || y < before.unwrap().miny {
                            top = x as int;
                        }
                        if before is None || y > before.unwrap().maxy {
                            bottom = x as int;
                        }
                    }
                }
                x = x + 1;
            }
            y = y + 1;
        }
        let bounds = acc.finish();
        proof {
            if acc@ is Some {
                lemma_bounding_box_is_content_bounds(bounds, img@, classifier);
            }
        }
        bounds
    }
}

} // verus!
