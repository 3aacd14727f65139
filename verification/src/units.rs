//! The fixed-point scales shared by the whole simulation.
//!
//! * lengths and coordinates are counted in millionths of a world unit,
//! * speeds in thousandths of a world unit per second,
//! * time in milliseconds,
//! * weights in hundredths of a kilogram.
//!
//! A speed multiplied by a duration is therefore a length with no rounding.

use vstd::prelude::*;

verus! {

/// Millionths of a world unit in one world unit.
pub const UNIT: i64 = 1_000_000;

/// Thousandths of a world unit per second in one world unit per second.
pub const UNIT_PER_SECOND: i64 = 1_000;

/// Milliseconds in one second.
pub const SECOND: u32 = 1_000;

/// Hundredths of a kilogram in one kilogram.
pub const KILOGRAM: u64 = 100;

/// The playfield reaches this far to either side of the origin.
pub const PLAYFIELD_HALF_WIDTH: i64 = 1_800 * UNIT;

/// Every coordinate that the simulation moves must lie within this distance
/// of the origin, which leaves room for one tick of any length.
pub const WORLD_LIMIT: i64 = 4_000_000_000_000_000_000;

/// Whether a coordinate lies within [`WORLD_LIMIT`] of the origin.
pub open spec fn in_world(c: i64) -> bool {
    -WORLD_LIMIT <= c <= WORLD_LIMIT
}

/// Whether a coordinate lies within [`WORLD_LIMIT`] of the origin.
pub fn is_in_world(c: i64) -> (inside: bool)
    ensures
        inside == in_world(c),
{
    -WORLD_LIMIT <= c && c <= WORLD_LIMIT
}

} // verus!
