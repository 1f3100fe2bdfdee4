//! Trimming of uniform-background or fully transparent borders from raster
//! images: the smallest rectangle that holds every meaningful pixel, and the
//! image cut down to it.
//!
//! `pixel` decides what is background, `bounds` finds the bounding box of
//! what is not, `planner` picks the strategy and crops, and `path` names the
//! output file. `grid` is the mathematical model that the contracts speak of,
//! `canvas` ties it to the buffers of the `image` crate, and `laws` proves
//! what holds of bounds and crops in general.

pub mod bounds;
pub mod canvas;
pub mod grid;
pub mod laws;
pub mod order;
pub mod path;
pub mod pixel;
pub mod planner;
pub mod report;
