//! The selector: a pure map from the requested dimensions and the catalog
//! size to a 1-based source image index, and the size-dependent choice of
//! the resampling filter.

use vstd::prelude::*;

verus! {

/// The largest admitted value of width + height.
pub const MAX_DIMENSION_SUM: u32 = 7000;

/// Above this value of width + height the fast, lower-quality filter is
/// used; at or below it the higher-quality filter is used.
pub const FAST_FILTER_THRESHOLD: u32 = 3000;

/// The 1-based index of the source image chosen for the given dimensions:
/// ((width + height) mod image_count) + 1.
pub open spec fn spec_select_index(width: u32, height: u32, image_count: u32) -> int
    recommends
        image_count > 0,
{
    ((width + height) % (image_count as int)) + 1
}

/// Picks which of the `image_count` source images serves a request for
/// (width, height). Deterministic; the same inputs always give the same
/// index, which is what makes the cache path reusable.
pub fn select_index(width: u32, height: u32, image_count: u32) -> (r: u32)
    requires
        image_count > 0,
    ensures
        r == spec_select_index(width, height, image_count),
        1 <= r <= image_count,
{
    let sum: u64 = (width as u64) + (height as u64);
    let index: u64 = (sum % (image_count as u64)) + 1;
    index as u32
}

/// True when the request is large enough that the fast, lower-quality
/// resampling filter is used in place of the higher-quality one.
pub open spec fn spec_use_fast_filter(width: u32, height: u32) -> bool {
    width + height > FAST_FILTER_THRESHOLD
}

/// Chooses between the fast filter (for large outputs, bounding CPU and
/// memory cost) and the higher-quality filter (for small ones).
pub fn use_fast_filter(width: u32, height: u32) -> (r: bool)
    ensures
        r == spec_use_fast_filter(width, height),
{
    (width as u64) + (height as u64) > (FAST_FILTER_THRESHOLD as u64)
}

} // verus!
