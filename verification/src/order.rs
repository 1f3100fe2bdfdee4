//! The smaller and the larger of two values.

use vstd::prelude::*;
use vstd::std_specs::cmp::{PartialOrdIs, PartialOrdSpec};

verus! {

/// The smaller of `a` and `b`; `b` where neither is smaller.
pub fn min<T: Ord>(a: T, b: T) -> (least: T)
    ensures
        least == a || least == b,
        T::obeys_partial_cmp_spec() ==> least == (if a.is_lt(&b) {
            a
        } else {
            b
        }),
{
    if a < b {
        a
    } else {
        b
    }
}

/// The larger of `a` and `b`; `b` where neither is larger.
pub fn max<T: Ord>(a: T, b: T) -> (greatest: T)
    ensures
        greatest == a || greatest == b,
        T::obeys_partial_cmp_spec() ==> greatest == (if a.is_gt(&b) {
            a
        } else {
            b
        }),
{
    if a > b {
        a
    } else {
        b
    }
}

} // verus!
