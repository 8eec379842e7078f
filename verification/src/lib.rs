//! Deterministic placeholder-image pipeline: a fixed catalog of source
//! photos keyed by subject and kind, a modular selector that picks one
//! source image from the request dimensions, pure construction of the
//! source and cache paths, and a resize-to-fill step that turns source
//! bytes into JPEG output bytes of the exact requested dimensions.

pub mod catalog;
pub mod error;
pub mod paths;
pub mod pipeline;
pub mod resizer;
pub mod selector;

use vstd::prelude::*;

verus! {

} // verus!
