//! The four auxiliary views, each placed on the sheet by its own offset and drawn
//! from the same dimension set as the plan.

pub mod front;
pub mod top;
pub mod side;
pub mod section;

pub use front::create_front_elevation;
pub use section::create_section_cut;
pub use side::create_side_elevation;
pub use top::create_top_view;

use vstd::prelude::*;

verus! {

/// How far the ground line runs past the building at each end.
pub const GROUND_EXTENSION: i64 = 500;
/// Height of a view's title above its roof.
pub const TITLE_RISE: i64 = 500;

} // verus!
