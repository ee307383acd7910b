//! Lengths and durations as whole numbers.

use vstd::prelude::*;

verus! {

/// A length in millionths of a unit of space.
pub type Distance = u64;

/// A duration in millionths of a second.
pub type Duration = u64;

/// How close to a waypoint counts as having reached it.
pub const WAYPOINT_TOLERANCE: Distance = 100_000;

} // verus!
