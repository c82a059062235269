//! A plain point on an integer grid.

use vstd::prelude::*;

verus! {

/// A point, as a pair of coordinates.  Copying it duplicates the fields.
#[derive(Copy, Clone, Debug)]
pub struct Point(pub i32, pub i32);

} // verus!
