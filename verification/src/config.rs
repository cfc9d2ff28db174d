//! Configuration constants, fixed at build time.
//!
//! The board is laid out on a window of 1479 x 957 pixels of square blocks,
//! 29 pixels each; the two health bars sit outside that inner area. Both
//! pixel lengths are exact multiples of the block size, so the divisions
//! below are exact.

use vstd::prelude::*;

verus! {

/// Number of grid columns.
pub const HORIZONTAL_BLOCKS: usize = 1479 / 29;

/// Number of grid rows.
pub const VERTICAL_BLOCKS: usize = 957 / 29;

/// How many live cells a scan of an outer column must meet before the
/// player defending that edge takes damage for the tick.
pub const DAMAGE_THRESHOLD: usize = 3;

/// Number of health tiers. A player starts at tier 0 (full health) and is
/// defeated on reaching the last tier.
pub const LIFE_TIERS: usize = 6;

} // verus!
