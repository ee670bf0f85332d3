//! Static geometry of the world and the intersection.
//!
//! The world is a fixed rectangle holding one horizontal and one vertical
//! road that cross at its center. Each road has two lanes; a lane center is
//! offset from the intersection center by a quarter of a lane width, so the
//! opposing lanes of one road never overlap.

use vstd::prelude::*;

verus! {

/// Width of the world rectangle, in units.
pub const WORLD_WIDTH: i32 = 800;

/// Height of the world rectangle, in units.
pub const WORLD_HEIGHT: i32 = 600;

/// Horizontal coordinate of the intersection center.
pub const CENTER_X: i32 = 400;

/// Vertical coordinate of the intersection center.
pub const CENTER_Y: i32 = 300;

/// Width of each road (both lanes together).
pub const ROAD_WIDTH: i32 = 100;

/// Width of one lane.
pub const LANE_WIDTH: i32 = 50;

/// Extra margin around the road crossing inside which a vehicle counts as
/// being in the intersection area.
pub const INTERSECTION_MARGIN: i32 = 15;

/// Half-width of the zone, centered on the intersection center along the
/// travel axis, inside which a turn is executed.
pub const TURN_EXECUTION_ZONE: i32 = 5;

/// Lane center for vehicles heading north (up the screen).
pub const NORTHBOUND_LANE_CENTER: i32 = 388;

/// Lane center for vehicles heading south.
pub const SOUTHBOUND_LANE_CENTER: i32 = 412;

/// Lane center for vehicles heading east.
pub const EASTBOUND_LANE_CENTER: i32 = 312;

/// Lane center for vehicles heading west.
pub const WESTBOUND_LANE_CENTER: i32 = 288;

/// How far before the stop line a vehicle counts as approaching the
/// intersection for arbitration purposes.
pub const APPROACH_DISTANCE: i32 = 80;

/// A vehicle closer than this to the stop line halts at a red light.
pub const STOP_LINE_WINDOW: i32 = 30;

/// A vehicle more than this far outside the world rectangle on any side is
/// removed from the population.
pub const EVICTION_MARGIN: i32 = 100;

/// Absolute value, as a spec-level helper for distances.
pub open spec fn iabs(v: int) -> int {
    if v < 0 { -v } else { v }
}

} // verus!
