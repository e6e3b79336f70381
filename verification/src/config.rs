//! Fixed simulation dimensions, chosen at build time.

use vstd::prelude::*;

verus! {

/// Number of cells per grid row.
pub const GRID_WIDTH: usize = 250;

/// Number of cells per grid column.
pub const GRID_HEIGHT: usize = 250;

} // verus!
