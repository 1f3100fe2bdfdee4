//! The mathematical model of an image: rows of pixels, top to bottom, each
//! row left to right.

use vstd::prelude::*;
use crate::pixel::Pixel;

verus! {

/// A non-empty rectangle of pixels: at least one row, at least one column,
/// every row as long as the first, and no side longer than a `u32` can count.
pub open spec fn is_grid(rows: Seq<Seq<Pixel>>) -> bool {
    &&& 1 <= rows.len() <= u32::MAX
    &&& 1 <= rows[0].len() <= u32::MAX
    &&& forall|y: int| 0 <= y < rows.len() ==> (#[trigger] rows[y]).len() == rows[0].len()
}

/// The number of columns of a grid.
pub open spec fn grid_width(rows: Seq<Seq<Pixel>>) -> nat
    recommends
        rows.len() >= 1,
{
    rows[0].len()
}

/// The number of rows of a grid.
pub open spec fn grid_height(rows: Seq<Seq<Pixel>>) -> nat {
    rows.len()
}

/// Whether column `x` of row `y` lies inside the grid.
pub open spec fn in_grid(rows: Seq<Seq<Pixel>>, x: int, y: int) -> bool {
    0 <= y < rows.len() && 0 <= x < rows[y].len()
}

/// The pixel that starts at sample `4 * index` of a packed RGBA buffer.
pub open spec fn pixel_of_raw(data: Seq<u8>, index: int) -> Pixel {
    Pixel {
        red: data[4 * index],
        green: data[4 * index + 1],
        blue: data[4 * index + 2],
        alpha: data[4 * index + 3],
    }
}

/// The rows that a packed, row-major RGBA buffer holds for the given
/// dimensions.
pub open spec fn rows_of_raw(width: nat, height: nat, data: Seq<u8>) -> Seq<Seq<Pixel>> {
    Seq::new(height, |y: int| Seq::new(width, |x: int| pixel_of_raw(data, y * width + x)))
}

/// The part of `rows` that starts at column `x` of row `y` and spans `width`
/// columns and `height` rows.
pub open spec fn sub_grid(rows: Seq<Seq<Pixel>>, x: int, y: int, width: nat, height: nat) -> Seq<
    Seq<Pixel>,
> {
    Seq::new(height, |j: int| rows[y + j].subrange(x, x + width))
}

} // verus!
