//! The per-vehicle decision core.
//!
//! A vehicle owns its kinematic and decision state and advances itself by
//! one tick: it follows the vehicle ahead in its lane, arbitrates
//! right-of-way with crossing and turning traffic near the intersection,
//! halts at a red light, executes its chosen turn at the intersection
//! center, and integrates its position by its current speed.

use vstd::prelude::*;
use crate::geometry::{
    WORLD_WIDTH, WORLD_HEIGHT, CENTER_X, CENTER_Y, ROAD_WIDTH, LANE_WIDTH,
    INTERSECTION_MARGIN, TURN_EXECUTION_ZONE, NORTHBOUND_LANE_CENTER,
    SOUTHBOUND_LANE_CENTER, EASTBOUND_LANE_CENTER, WESTBOUND_LANE_CENTER,
    APPROACH_DISTANCE, STOP_LINE_WINDOW, iabs,
};
use crate::traffic_light::{TrafficLightSystem, TrafficLightState};

verus! {

/// Coordinates of a well-formed vehicle stay within this bound, which keeps
/// every coordinate computation inside `i32`.
pub const COORD_LIMIT: i32 = 1000000;

/// Functions that move a vehicle ask for this tighter bound on entry, so
/// that the move cannot leave [`COORD_LIMIT`] behind.
pub const MOVE_REGION: i32 = 100000;

/// Two rectangles closer than this do not yet count as touching; the margin
/// avoids false positives from adjacent, non-overlapping vehicles.
pub const COLLISION_MARGIN: i32 = 2;

/// Gap below which a vehicle stops fully behind the one ahead.
pub const HARD_STOP_GAP: i32 = 20;

/// Gap below which a stopped vehicle also nudges one unit backward to
/// prevent overlap with the one ahead.
pub const NUDGE_GAP: i32 = 10;

/// Half-width of the window, in estimated arrival ticks, inside which two
/// left-crossing opposers count as conflicting.
pub const OPPOSING_WINDOW: i32 = 20;

/// Base half-width of the arrival window for perpendicular traffic; the
/// window grows with the average of both speeds.
pub const PERPENDICULAR_WINDOW_BASE: i32 = 15;

/// A vehicle stopped for an unresolved intersection conflict inside the
/// intersection area is force-released whenever its tick counter reaches a
/// multiple of this period, as a deadlock breaker.
pub const RELEASE_PERIOD: u64 = 100;

/// The four cardinal travel directions.
#[derive(Clone, Copy, PartialEq, Eq, Structural, Debug)]
pub enum Direction {
    North,
    South,
    East,
    West,
}

/// A vehicle's turn intent at the intersection.
#[derive(Clone, Copy, PartialEq, Eq, Structural, Debug)]
pub enum Turn {
    Left,
    Right,
    Straight,
}

/// The tagged cause of a vehicle's current halt.
#[derive(Clone, Copy, PartialEq, Eq, Structural, Debug)]
pub enum StopReason {
    NoStop,
    TrafficLight,
    VehicleAhead,
    IntersectionConflict,
}

/// One vehicle's kinematic and decision state. `x`/`y` are the top-left
/// corner of its rectangle; `width`/`height` swap when the vehicle turns.
#[derive(Clone, Copy)]
pub struct Vehicle {
    pub x: i32,
    pub y: i32,
    pub direction: Direction,
    pub turn: Turn,
    pub width: i32,
    pub height: i32,
    pub stopped: bool,
    pub stop_reason: StopReason,
    pub max_speed: i32,
    pub current_speed: i32,
    pub acceleration: i32,
    pub deceleration: i32,
    pub following_distance: i32,
    pub arrival_time: Option<u64>,
    pub global_tick: u64,
    pub has_turned: bool,
    pub turn_executed: bool,
    pub target_x: i32,
    pub target_y: i32,
}

/// True when the direction runs along the north-south axis.
pub open spec fn is_north_south(d: Direction) -> bool {
    d == Direction::North || d == Direction::South
}

/// True when the two directions are head-on opposers.
pub open spec fn opposing(a: Direction, b: Direction) -> bool {
    ||| a == Direction::North && b == Direction::South
    ||| a == Direction::South && b == Direction::North
    ||| a == Direction::East && b == Direction::West
    ||| a == Direction::West && b == Direction::East
}

/// True when the two directions cross at a right angle.
pub open spec fn perpendicular(a: Direction, b: Direction) -> bool {
    is_north_south(a) != is_north_south(b)
}

impl Vehicle {
    /// Internal consistency of one vehicle: positive extent, speed within
    /// its limit, bounded coordinates, a stop reason only while stopped,
    /// and a usable realignment target on the lateral axis of travel.
    pub open spec fn wf(self) -> bool {
        &&& 0 < self.width <= 100
        &&& 0 < self.height <= 100
        &&& 1 <= self.max_speed <= 10
        &&& 0 <= self.current_speed <= self.max_speed
        &&& 1 <= self.acceleration <= 10
        &&& 1 <= self.deceleration <= 10
        &&& 0 <= self.following_distance <= 1000
        &&& -COORD_LIMIT <= self.x <= COORD_LIMIT
        &&& -COORD_LIMIT <= self.y <= COORD_LIMIT
        &&& (!self.stopped ==> self.stop_reason == StopReason::NoStop)
        &&& (is_north_south(self.direction) ==> -COORD_LIMIT <= self.target_x <= COORD_LIMIT)
        &&& (!is_north_south(self.direction) ==> -COORD_LIMIT <= self.target_y <= COORD_LIMIT)
    }

    /// Coordinates close enough to the world that one tick of movement
    /// cannot take them near [`COORD_LIMIT`].
    pub open spec fn in_move_region(self) -> bool {
        &&& -MOVE_REGION <= self.x <= MOVE_REGION
        &&& -MOVE_REGION <= self.y <= MOVE_REGION
    }

    /// True while the vehicle is within [`APPROACH_DISTANCE`] units before
    /// the stop line of its direction and has not yet crossed it.
    pub open spec fn approaching_spec(self) -> bool {
        match self.direction {
            Direction::North => self.y <= CENTER_Y + ROAD_WIDTH / 2 + APPROACH_DISTANCE
                && self.y > CENTER_Y + ROAD_WIDTH / 2,
            Direction::South => self.y >= CENTER_Y - ROAD_WIDTH / 2 - APPROACH_DISTANCE
                && self.y < CENTER_Y - ROAD_WIDTH / 2,
            Direction::East => self.x >= CENTER_X - ROAD_WIDTH / 2 - APPROACH_DISTANCE
                && self.x < CENTER_X - ROAD_WIDTH / 2,
            Direction::West => self.x <= CENTER_X + ROAD_WIDTH / 2 + APPROACH_DISTANCE
                && self.x > CENTER_X + ROAD_WIDTH / 2,
        }
    }

    /// True while the vehicle's travel-axis coordinate lies within the
    /// intersection's bounding region, margin included.
    pub open spec fn in_area_spec(self) -> bool {
        match self.direction {
            Direction::North | Direction::South =>
                CENTER_Y - ROAD_WIDTH / 2 - INTERSECTION_MARGIN <= self.y
                    <= CENTER_Y + ROAD_WIDTH / 2 + INTERSECTION_MARGIN,
            Direction::East | Direction::West =>
                CENTER_X - ROAD_WIDTH / 2 - INTERSECTION_MARGIN <= self.x
                    <= CENTER_X + ROAD_WIDTH / 2 + INTERSECTION_MARGIN,
        }
    }

    /// True while the vehicle's travel-axis coordinate is within
    /// [`TURN_EXECUTION_ZONE`] units of the intersection center.
    pub open spec fn in_turn_zone_spec(self) -> bool {
        match self.direction {
            Direction::North | Direction::South => iabs(self.y - CENTER_Y) <= TURN_EXECUTION_ZONE,
            Direction::East | Direction::West => iabs(self.x - CENTER_X) <= TURN_EXECUTION_ZONE,
        }
    }

    /// Squared Euclidean distance from the vehicle's rectangle center to
    /// the intersection center. Comparisons of distances go through the
    /// squares, which orders them the same way.
    pub open spec fn dist_sq_spec(self) -> int {
        let dx = self.x + self.width / 2 - CENTER_X;
        let dy = self.y + self.height / 2 - CENTER_Y;
        dx * dx + dy * dy
    }

    /// Estimated ticks until the vehicle reaches the intersection center at
    /// its current speed; a stationary vehicle never reaches it, which the
    /// sentinel `i32::MAX` stands for.
    pub open spec fn time_to_intersection_spec(self) -> int {
        if self.current_speed <= 0 {
            i32::MAX as int
        } else {
            let d = match self.direction {
                Direction::North => self.y - CENTER_Y,
                Direction::South => CENTER_Y - self.y,
                Direction::East => CENTER_X - self.x,
                Direction::West => self.x - CENTER_X,
            };
            (if d < 1 { 1int } else { d }) / (self.current_speed as int)
        }
    }

    /// True when the two rectangles, each shrunk by [`COLLISION_MARGIN`],
    /// overlap.
    pub open spec fn overlaps_spec(self, other: Vehicle) -> bool {
        &&& self.x < other.x + other.width - COLLISION_MARGIN
        &&& self.x + self.width - COLLISION_MARGIN > other.x
        &&& self.y < other.y + other.height - COLLISION_MARGIN
        &&& self.y + self.height - COLLISION_MARGIN > other.y
    }

    /// True when the other vehicle travels in the same lane as this one:
    /// the lateral coordinates differ by less than half a lane width.
    pub open spec fn same_lane_spec(self, other: Vehicle) -> bool {
        match self.direction {
            Direction::North | Direction::South => iabs(self.x - other.x) < LANE_WIDTH / 2,
            Direction::East | Direction::West => iabs(self.y - other.y) < LANE_WIDTH / 2,
        }
    }

    /// Signed bumper-to-bumper gap from this vehicle to the other along
    /// this vehicle's direction of travel; positive when the other is
    /// ahead.
    pub open spec fn gap_ahead_spec(self, other: Vehicle) -> int {
        match self.direction {
            Direction::North => self.y - other.y - other.height,
            Direction::South => other.y - self.y - self.height,
            Direction::East => other.x - self.x - self.width,
            Direction::West => self.x - other.x - other.width,
        }
    }

    /// True while the vehicle is approaching the stop line of its
    /// direction and has not yet crossed it.
    pub fn approaching_intersection(&self) -> (r: bool)
        ensures
            r == self.approaching_spec(),
    {
        match self.direction {
            Direction::North => self.y <= CENTER_Y + ROAD_WIDTH / 2 + APPROACH_DISTANCE
                && self.y > CENTER_Y + ROAD_WIDTH / 2,
            Direction::South => self.y >= CENTER_Y - ROAD_WIDTH / 2 - APPROACH_DISTANCE
                && self.y < CENTER_Y - ROAD_WIDTH / 2,
            Direction::East => self.x >= CENTER_X - ROAD_WIDTH / 2 - APPROACH_DISTANCE
                && self.x < CENTER_X - ROAD_WIDTH / 2,
            Direction::West => self.x <= CENTER_X + ROAD_WIDTH / 2 + APPROACH_DISTANCE
                && self.x > CENTER_X + ROAD_WIDTH / 2,
        }
    }

    /// True while the vehicle is inside the intersection's bounding
    /// region along its travel axis.
    pub fn in_intersection_area(&self) -> (r: bool)
        ensures
            r == self.in_area_spec(),
    {
        match self.direction {
            Direction::North | Direction::South =>
                self.y >= CENTER_Y - ROAD_WIDTH / 2 - INTERSECTION_MARGIN
                    && self.y <= CENTER_Y + ROAD_WIDTH / 2 + INTERSECTION_MARGIN,
            Direction::East | Direction::West =>
                self.x >= CENTER_X - ROAD_WIDTH / 2 - INTERSECTION_MARGIN
                    && self.x <= CENTER_X + ROAD_WIDTH / 2 + INTERSECTION_MARGIN,
        }
    }

    /// True while the vehicle may execute its turn: its travel-axis
    /// coordinate is within the turn zone around the intersection center.
    pub fn in_turn_zone(&self) -> (r: bool)
        requires
            -COORD_LIMIT <= self.x <= COORD_LIMIT,
            -COORD_LIMIT <= self.y <= COORD_LIMIT,
        ensures
            r == self.in_turn_zone_spec(),
    {
        match self.direction {
            Direction::North | Direction::South => {
                let d = self.y - CENTER_Y;
                let a = if d < 0 { -d } else { d };
                a <= TURN_EXECUTION_ZONE
            }
            Direction::East | Direction::West => {
                let d = self.x - CENTER_X;
                let a = if d < 0 { -d } else { d };
                a <= TURN_EXECUTION_ZONE
            }
        }
    }

    /// Squared distance of the vehicle's rectangle center from the
    /// intersection center.
    pub fn distance_from_center_sq(&self) -> (r: i64)
        requires
            -COORD_LIMIT <= self.x <= COORD_LIMIT,
            -COORD_LIMIT <= self.y <= COORD_LIMIT,
            0 < self.width <= 100,
            0 < self.height <= 100,
        ensures
            r as int == self.dist_sq_spec(),
    {
        let dx = (self.x + self.width / 2 - CENTER_X) as i64;
        let dy = (self.y + self.height / 2 - CENTER_Y) as i64;
        proof {
            assert(0 <= dx * dx <= 2000000000000 && 0 <= dy * dy <= 2000000000000)
                by (nonlinear_arith)
                requires
                    -1100000 <= dx <= 1100000,
                    -1100000 <= dy <= 1100000,
            ;
        }
        dx * dx + dy * dy
    }

    /// Estimated ticks until the intersection center, `i32::MAX` when
    /// stationary.
    pub fn time_to_intersection(&self) -> (r: i32)
        requires
            -COORD_LIMIT <= self.x <= COORD_LIMIT,
            -COORD_LIMIT <= self.y <= COORD_LIMIT,
            self.current_speed <= 10,
        ensures
            r as int == self.time_to_intersection_spec(),
    {
        if self.current_speed <= 0 {
            return i32::MAX;
        }
        let d = match self.direction {
            Direction::North => self.y - CENTER_Y,
            Direction::South => CENTER_Y - self.y,
            Direction::East => CENTER_X - self.x,
            Direction::West => self.x - CENTER_X,
        };
        let d = if d < 1 { 1 } else { d };
        d / self.current_speed
    }

    /// True when this vehicle's rectangle and the other's, both shrunk by
    /// [`COLLISION_MARGIN`], overlap.
    pub fn bounding_box_collision(&self, other: &Vehicle) -> (r: bool)
        requires
            -COORD_LIMIT <= self.x <= COORD_LIMIT,
            -COORD_LIMIT <= self.y <= COORD_LIMIT,
            -COORD_LIMIT <= other.x <= COORD_LIMIT,
            -COORD_LIMIT <= other.y <= COORD_LIMIT,
            0 < self.width <= 100,
            0 < self.height <= 100,
            0 < other.width <= 100,
            0 < other.height <= 100,
        ensures
            r == self.overlaps_spec(*other),
    {
        self.x < other.x + other.width - COLLISION_MARGIN
            && self.x + self.width - COLLISION_MARGIN > other.x
            && self.y < other.y + other.height - COLLISION_MARGIN
            && self.y + self.height - COLLISION_MARGIN > other.y
    }
}

impl Vehicle {
    /// Right-of-way priority table for this vehicle against another.
    ///
    /// Cross traffic yields to the approach on its right (north to east,
    /// east to south, south to west, west to north) and never the other
    /// way around. Between head-on opposers, a left turner yields to a
    /// straight or right-turning opposer, a straight vehicle yields to a
    /// right turner, and a right turner never yields by the table. Every
    /// remaining pairing falls back to distance: the vehicle farther from
    /// the intersection center yields.
    pub open spec fn should_yield_spec(self, other: Vehicle) -> bool {
        match (self.direction, other.direction) {
            (Direction::North, Direction::East) => true,
            (Direction::East, Direction::South) => true,
            (Direction::South, Direction::West) => true,
            (Direction::West, Direction::North) => true,
            (Direction::North, Direction::West) => false,
            (Direction::East, Direction::North) => false,
            (Direction::South, Direction::East) => false,
            (Direction::West, Direction::South) => false,
            (Direction::North, Direction::South) | (Direction::South, Direction::North)
            | (Direction::East, Direction::West) | (Direction::West, Direction::East) => {
                match (self.turn, other.turn) {
                    (Turn::Left, Turn::Straight) | (Turn::Left, Turn::Right) => true,
                    (Turn::Straight, Turn::Right) => true,
                    (Turn::Right, _) => false,
                    _ => self.dist_sq_spec() > other.dist_sq_spec(),
                }
            }
            _ => self.dist_sq_spec() > other.dist_sq_spec(),
        }
    }

    /// Predicted conflict between this vehicle's path and the other's.
    ///
    /// A vehicle already moving inside the intersection area is committed
    /// and conflicts with nobody. Two vehicles both stopped for a
    /// conflict resolve by age: the younger (higher tick counter) keeps
    /// yielding. Head-on opposers conflict only when one turns left
    /// across the other and their estimated arrivals fall within a fixed
    /// window; perpendicular traffic conflicts within a window that grows
    /// with the combined speed; everything else conflicts only on an
    /// actual rectangle overlap in the same lane.
    pub open spec fn will_collide_spec(self, other: Vehicle) -> bool {
        if self.in_area_spec() && self.current_speed > 0 {
            false
        } else if self.stopped && other.stopped
            && self.stop_reason == StopReason::IntersectionConflict
            && other.stop_reason == StopReason::IntersectionConflict {
            self.global_tick > other.global_tick
        } else if opposing(self.direction, other.direction)
            && ((self.turn == Turn::Left && other.turn != Turn::Right)
                || (other.turn == Turn::Left && self.turn != Turn::Right)) {
            iabs(self.time_to_intersection_spec() - other.time_to_intersection_spec())
                < OPPOSING_WINDOW
        } else if perpendicular(self.direction, other.direction) {
            iabs(self.time_to_intersection_spec() - other.time_to_intersection_spec())
                < PERPENDICULAR_WINDOW_BASE + (self.current_speed + other.current_speed) / 2
        } else {
            self.same_lane_spec(other) && self.overlaps_spec(other)
        }
    }

    /// Decides right-of-way against the other vehicle by the priority
    /// table.
    pub fn should_yield_to(&self, other: &Vehicle) -> (r: bool)
        requires
            self.wf(),
            other.wf(),
        ensures
            r == self.should_yield_spec(*other),
    {
        match (self.direction, other.direction) {
            (Direction::North, Direction::East) => true,
            (Direction::East, Direction::South) => true,
            (Direction::South, Direction::West) => true,
            (Direction::West, Direction::North) => true,
            (Direction::North, Direction::West) => false,
            (Direction::East, Direction::North) => false,
            (Direction::South, Direction::East) => false,
            (Direction::West, Direction::South) => false,
            (Direction::North, Direction::South) | (Direction::South, Direction::North)
            | (Direction::East, Direction::West) | (Direction::West, Direction::East) => {
                match (self.turn, other.turn) {
                    (Turn::Left, Turn::Straight) | (Turn::Left, Turn::Right) => true,
                    (Turn::Straight, Turn::Right) => true,
                    (Turn::Right, _) => false,
                    _ => self.distance_from_center_sq() > other.distance_from_center_sq(),
                }
            }
            _ => self.distance_from_center_sq() > other.distance_from_center_sq(),
        }
    }

    /// Predicts whether this vehicle's path conflicts with the other's.
    pub fn will_collide(&self, other: &Vehicle) -> (r: bool)
        requires
            self.wf(),
            other.wf(),
        ensures
            r == self.will_collide_spec(*other),
    {
        if self.in_intersection_area() && self.current_speed > 0 {
            return false;
        }

        if self.stopped && other.stopped
            && self.stop_reason == StopReason::IntersectionConflict
            && other.stop_reason == StopReason::IntersectionConflict {
            return self.global_tick > other.global_tick;
        }

        let head_on = match (self.direction, other.direction) {
            (Direction::North, Direction::South) | (Direction::South, Direction::North)
            | (Direction::East, Direction::West) | (Direction::West, Direction::East) => true,
            _ => false,
        };

        if head_on {
            if (self.turn == Turn::Left && other.turn != Turn::Right)
                || (other.turn == Turn::Left && self.turn != Turn::Right) {
                let self_time = self.time_to_intersection();
                let other_time = other.time_to_intersection();
                let diff = self_time - other_time;
                let diff = if diff < 0 { -diff } else { diff };
                return diff < OPPOSING_WINDOW;
            }
        }

        let cross = match (self.direction, other.direction) {
            (Direction::North, Direction::East) | (Direction::South, Direction::West)
            | (Direction::East, Direction::North) | (Direction::West, Direction::South)
            | (Direction::North, Direction::West) | (Direction::South, Direction::East)
            | (Direction::East, Direction::South) | (Direction::West, Direction::North) => true,
            _ => false,
        };

        if cross {
            let self_time = self.time_to_intersection();
            let other_time = other.time_to_intersection();
            let window = PERPENDICULAR_WINDOW_BASE + (self.current_speed + other.current_speed) / 2;
            let diff = self_time - other_time;
            let diff = if diff < 0 { -diff } else { diff };
            diff < window
        } else {
            let same_lane = match self.direction {
                Direction::North | Direction::South => {
                    let d = self.x - other.x;
                    let d = if d < 0 { -d } else { d };
                    d < LANE_WIDTH / 2
                }
                Direction::East | Direction::West => {
                    let d = self.y - other.y;
                    let d = if d < 0 { -d } else { d };
                    d < LANE_WIDTH / 2
                }
            };
            same_lane && self.bounding_box_collision(other)
        }
    }
}

/// Overlap of the margin-shrunk rectangles is symmetric in the two
/// vehicles.
pub proof fn lemma_overlap_symmetric(a: Vehicle, b: Vehicle)
    ensures
        a.overlaps_spec(b) == b.overlaps_spec(a),
{
}

/// Gap and stopped-flag of the closest vehicle ahead of `me` in its lane,
/// scanning the peers in order and skipping index `skip`; the gap is the
/// `i32::MAX` sentinel when no peer is ahead.
pub open spec fn scan_ahead(me: Vehicle, peers: Seq<Vehicle>, skip: int) -> (int, bool)
    decreases peers.len(),
{
    if peers.len() == 0 {
        (i32::MAX as int, false)
    } else {
        let rest = scan_ahead(me, peers.drop_last(), skip);
        let i = peers.len() - 1;
        let o = peers.last();
        let gap = me.gap_ahead_spec(o);
        if i != skip && o.direction == me.direction && me.same_lane_spec(o)
            && gap > 0 && gap < rest.0 {
            (gap, o.stopped)
        } else {
            rest
        }
    }
}

/// The closest gap a scan reports is positive unless no peer is ahead, in
/// which case it is the sentinel.
pub proof fn lemma_scan_ahead_positive(me: Vehicle, peers: Seq<Vehicle>, skip: int)
    ensures
        0 < scan_ahead(me, peers, skip).0 <= i32::MAX as int,
    decreases peers.len(),
{
    if peers.len() > 0 {
        lemma_scan_ahead_positive(me, peers.drop_last(), skip);
    }
}

impl Vehicle {
    /// The vehicle after one car-following decision against the closest
    /// gap ahead. Within following distance of a stopped vehicle, or
    /// below the hard minimum gap, it stops fully (nudging one unit
    /// backward below the critical gap); within following distance of a
    /// moving vehicle it takes four fifths of the gap as its speed,
    /// clamped to `[1, max_speed]`; with a clear road it accelerates one
    /// step toward its maximum.
    pub open spec fn follow_spec(self, gap: int, ahead_stopped: bool) -> Vehicle {
        if gap < self.following_distance {
            if ahead_stopped || gap < HARD_STOP_GAP {
                let halted = Vehicle {
                    current_speed: 0,
                    stopped: true,
                    stop_reason: StopReason::VehicleAhead,
                    ..self
                };
                if gap < NUDGE_GAP { halted.nudged_back() } else { halted }
            } else {
                let desired = if gap * 4 / 5 < self.max_speed { gap * 4 / 5 } else { self.max_speed as int };
                let speed = if desired > 1 { desired } else { 1int };
                Vehicle { current_speed: speed as i32, ..self }
            }
        } else {
            let speed = if self.current_speed + self.acceleration < self.max_speed {
                self.current_speed + self.acceleration
            } else {
                self.max_speed as int
            };
            Vehicle { current_speed: speed as i32, ..self }
        }
    }

    /// The vehicle moved one unit opposite to its travel direction.
    pub open spec fn nudged_back(self) -> Vehicle {
        match self.direction {
            Direction::North => Vehicle { y: (self.y + 1) as i32, ..self },
            Direction::South => Vehicle { y: (self.y - 1) as i32, ..self },
            Direction::East => Vehicle { x: (self.x - 1) as i32, ..self },
            Direction::West => Vehicle { x: (self.x + 1) as i32, ..self },
        }
    }

    /// The vehicle after car-following against the whole peer sequence.
    pub open spec fn follow_applied(self, peers: Seq<Vehicle>, skip: int) -> Vehicle {
        self.follow_spec(scan_ahead(self, peers, skip).0, scan_ahead(self, peers, skip).1)
    }

    /// Finds the closest vehicle ahead in this vehicle's lane among the
    /// peers, skipping `current_index`.
    fn scan_vehicles_ahead(&self, vehicles: &Vec<Vehicle>, current_index: usize) -> (r: (i32, bool))
        requires
            self.wf(),
            forall|i: int| 0 <= i < vehicles@.len() ==> (#[trigger] vehicles@[i]).wf(),
        ensures
            r.0 as int == scan_ahead(*self, vehicles@, current_index as int).0,
            r.1 == scan_ahead(*self, vehicles@, current_index as int).1,
    {
        let mut closest: i32 = i32::MAX;
        let mut closest_stopped: bool = false;
        let mut i: usize = 0;
        proof {
            assert(vehicles@.take(0int) =~= Seq::<Vehicle>::empty());
        }
        while i < vehicles.len()
            invariant
                self.wf(),
                forall|k: int| 0 <= k < vehicles@.len() ==> (#[trigger] vehicles@[k]).wf(),
                i <= vehicles@.len(),
                closest as int == scan_ahead(*self, vehicles@.take(i as int), current_index as int).0,
                closest_stopped == scan_ahead(*self, vehicles@.take(i as int), current_index as int).1,
            decreases vehicles@.len() - i,
        {
            proof {
                assert(vehicles@.take(i + 1).drop_last() =~= vehicles@.take(i as int));
                assert(vehicles@.take(i + 1).last() == vehicles@[i as int]);
            }
            let other = &vehicles[i];
            if i != current_index && other.direction == self.direction {
                let same_lane = match self.direction {
                    Direction::North | Direction::South => {
                        let d = self.x - other.x;
                        let d = if d < 0 { -d } else { d };
                        d < LANE_WIDTH / 2
                    }
                    Direction::East | Direction::West => {
                        let d = self.y - other.y;
                        let d = if d < 0 { -d } else { d };
                        d < LANE_WIDTH / 2
                    }
                };
                if same_lane {
                    let distance = match self.direction {
                        Direction::North => self.y - other.y - other.height,
                        Direction::South => other.y - self.y - self.height,
                        Direction::East => other.x - self.x - self.width,
                        Direction::West => self.x - other.x - other.width,
                    };
                    if distance > 0 && distance < closest {
                        closest = distance;
                        closest_stopped = other.stopped;
                    }
                }
            }
            i = i + 1;
        }
        proof {
            assert(vehicles@.take(vehicles@.len() as int) =~= vehicles@);
        }
        (closest, closest_stopped)
    }

    /// Runs the car-following decision against the peers: adjusts the
    /// current speed toward the closest vehicle ahead, stopping fully
    /// behind a stopped or critically close one.
    pub fn check_same_direction_vehicles(&mut self, vehicles: &Vec<Vehicle>, current_index: usize)
        requires
            old(self).wf(),
            old(self).in_move_region(),
            forall|i: int| 0 <= i < vehicles@.len() ==> (#[trigger] vehicles@[i]).wf(),
        ensures
            *final(self) == old(self).follow_applied(vehicles@, current_index as int),
            final(self).wf(),
            iabs(final(self).x - old(self).x) <= 1,
            iabs(final(self).y - old(self).y) <= 1,
    {
        let (closest, closest_stopped) = self.scan_vehicles_ahead(vehicles, current_index);
        proof {
            lemma_scan_ahead_positive(*self, vehicles@, current_index as int);
        }

        if closest < self.following_distance {
            if closest_stopped || closest < HARD_STOP_GAP {
                self.current_speed = 0;
                self.stopped = true;
                self.stop_reason = StopReason::VehicleAhead;

                if closest < NUDGE_GAP {
                    match self.direction {
                        Direction::North => self.y = self.y + 1,
                        Direction::South => self.y = self.y - 1,
                        Direction::East => self.x = self.x - 1,
                        Direction::West => self.x = self.x + 1,
                    }
                }
            } else {
                let desired = closest * 4 / 5;
                let desired = if desired < self.max_speed { desired } else { self.max_speed };
                self.current_speed = if desired > 1 { desired } else { 1 };
            }
        } else {
            let accelerated = self.current_speed + self.acceleration;
            self.current_speed = if accelerated < self.max_speed { accelerated } else { self.max_speed };
        }
    }
}

/// True of a peer that takes part in intersection arbitration: it is
/// approaching or inside the intersection and not held at a red light.
pub open spec fn conflict_candidate(o: Vehicle) -> bool {
    (o.approaching_spec() || o.in_area_spec()) && o.stop_reason != StopReason::TrafficLight
}

impl Vehicle {
    /// Which of a conflicting pair yields: the later arrival, with ties
    /// broken by the priority table; a vehicle without a recorded arrival
    /// yields to one that has one; with neither recorded, the table
    /// decides.
    pub open spec fn yields_to_spec(self, other: Vehicle) -> bool {
        match (self.arrival_time, other.arrival_time) {
            (Some(own), Some(theirs)) => own > theirs
                || (own == theirs && self.should_yield_spec(other)),
            (None, Some(_)) => true,
            (Some(_), None) => false,
            (None, None) => self.should_yield_spec(other),
        }
    }

    /// The vehicle with its intersection arrival tick recorded, if it was
    /// not already.
    pub open spec fn with_arrival(self) -> Vehicle {
        if self.arrival_time is None {
            Vehicle { arrival_time: Some(self.global_tick), ..self }
        } else {
            self
        }
    }

    /// True when some arbitration peer conflicts with this vehicle and
    /// wins the right of way against it.
    pub open spec fn must_yield_somewhere(self, peers: Seq<Vehicle>, skip: int) -> bool {
        exists|i: int| 0 <= i < peers.len() && i != skip
            && conflict_candidate(#[trigger] peers[i])
            && self.will_collide_spec(peers[i])
            && self.yields_to_spec(peers[i])
    }

    /// The vehicle after intersection arbitration. A vehicle stopped at a
    /// red light keeps its state; one outside the approach zone only
    /// forgets its arrival tick. An approaching vehicle records its
    /// arrival, stops for a conflict it loses, and releases a previous
    /// conflict stop once no conflict remains.
    pub open spec fn conflicts_spec(self, peers: Seq<Vehicle>, skip: int) -> Vehicle {
        if self.stop_reason == StopReason::TrafficLight || !self.approaching_spec() {
            if !self.approaching_spec() {
                Vehicle { arrival_time: None, ..self }
            } else {
                self
            }
        } else {
            let recorded = self.with_arrival();
            if recorded.must_yield_somewhere(peers, skip) {
                Vehicle {
                    current_speed: 0,
                    stopped: true,
                    stop_reason: StopReason::IntersectionConflict,
                    ..recorded
                }
            } else if recorded.stop_reason == StopReason::IntersectionConflict {
                Vehicle { stopped: false, stop_reason: StopReason::NoStop, ..recorded }
            } else {
                recorded
            }
        }
    }

    /// Decides against one peer whether this vehicle yields to it.
    fn yields_to(&self, other: &Vehicle) -> (r: bool)
        requires
            self.wf(),
            other.wf(),
        ensures
            r == self.yields_to_spec(*other),
    {
        match (self.arrival_time, other.arrival_time) {
            (Some(own), Some(theirs)) => {
                if own > theirs {
                    true
                } else if own == theirs {
                    self.should_yield_to(other)
                } else {
                    false
                }
            }
            (None, Some(_)) => true,
            (Some(_), None) => false,
            (None, None) => self.should_yield_to(other),
        }
    }

    /// Scans the peers for the first one that conflicts with this vehicle
    /// and wins the right of way.
    fn find_losing_conflict(&self, vehicles: &Vec<Vehicle>, current_index: usize) -> (r: bool)
        requires
            self.wf(),
            forall|i: int| 0 <= i < vehicles@.len() ==> (#[trigger] vehicles@[i]).wf(),
        ensures
            r == self.must_yield_somewhere(vehicles@, current_index as int),
    {
        let mut i: usize = 0;
        while i < vehicles.len()
            invariant
                self.wf(),
                forall|k: int| 0 <= k < vehicles@.len() ==> (#[trigger] vehicles@[k]).wf(),
                i <= vehicles@.len(),
                forall|k: int| 0 <= k < i && k != current_index
                    && conflict_candidate(#[trigger] vehicles@[k])
                    ==> !(self.will_collide_spec(vehicles@[k]) && self.yields_to_spec(vehicles@[k])),
            decreases vehicles@.len() - i,
        {
            let other = &vehicles[i];
            if i != current_index
                && (other.approaching_intersection() || other.in_intersection_area())
                && !(other.stop_reason == StopReason::TrafficLight) {
                if self.will_collide(other) && self.yields_to(other) {
                    return true;
                }
            }
            i = i + 1;
        }
        false
    }

    /// Runs intersection arbitration: records the arrival tick on first
    /// entering the approach zone, stops with an intersection-conflict
    /// reason when a conflicting peer has the right of way, and releases
    /// a previous conflict stop when none does.
    pub fn check_intersection_conflicts(&mut self, vehicles: &Vec<Vehicle>, current_index: usize)
        requires
            old(self).wf(),
            forall|i: int| 0 <= i < vehicles@.len() ==> (#[trigger] vehicles@[i]).wf(),
        ensures
            *final(self) == old(self).conflicts_spec(vehicles@, current_index as int),
            final(self).wf(),
            final(self).x == old(self).x,
            final(self).y == old(self).y,
    {
        if self.stop_reason == StopReason::TrafficLight || !self.approaching_intersection() {
            if !self.approaching_intersection() {
                self.arrival_time = None;
            }
            return;
        }

        if self.arrival_time.is_none() {
            self.arrival_time = Some(self.global_tick);
        }

        if self.find_losing_conflict(vehicles, current_index) {
            self.current_speed = 0;
            self.stopped = true;
            self.stop_reason = StopReason::IntersectionConflict;
        } else if self.stop_reason == StopReason::IntersectionConflict {
            self.stopped = false;
            self.stop_reason = StopReason::NoStop;
        }
    }

    /// Signed distance from this vehicle's front bumper to the stop line
    /// of its direction; positive while the bumper is before the line.
    pub open spec fn stop_line_distance_spec(self) -> int {
        match self.direction {
            Direction::North => self.y - (CENTER_Y + ROAD_WIDTH / 2),
            Direction::South => (CENTER_Y - ROAD_WIDTH / 2) - (self.y + self.height),
            Direction::East => (CENTER_X - ROAD_WIDTH / 2) - self.x - self.width,
            Direction::West => self.x - (CENTER_X + ROAD_WIDTH / 2),
        }
    }

    /// The vehicle after the traffic-light check: a previous light stop is
    /// released first, then re-asserted whenever the light for its
    /// direction is red and the front bumper stands within the stop
    /// window before the line.
    pub open spec fn light_spec_update(self, s: TrafficLightSystem) -> Vehicle {
        let released = if self.stop_reason == StopReason::TrafficLight {
            Vehicle { stopped: false, stop_reason: StopReason::NoStop, ..self }
        } else {
            self
        };
        if s.light_spec(self.direction) == TrafficLightState::Red
            && 0 < self.stop_line_distance_spec() < STOP_LINE_WINDOW {
            Vehicle { stopped: true, stop_reason: StopReason::TrafficLight, ..released }
        } else {
            released
        }
    }

    /// Re-evaluates the red light for this vehicle's direction: releases a
    /// previous light stop, then stops again when the light is red and
    /// the stop line is close ahead.
    pub fn check_traffic_light(&mut self, traffic_system: &TrafficLightSystem)
        requires
            old(self).wf(),
        ensures
            *final(self) == old(self).light_spec_update(*traffic_system),
            final(self).wf(),
            final(self).x == old(self).x,
            final(self).y == old(self).y,
    {
        let is_red = match self.direction {
            Direction::North => traffic_system.north_state == TrafficLightState::Red,
            Direction::South => traffic_system.south_state == TrafficLightState::Red,
            Direction::East => traffic_system.east_state == TrafficLightState::Red,
            Direction::West => traffic_system.west_state == TrafficLightState::Red,
        };

        if self.stop_reason == StopReason::TrafficLight {
            self.stopped = false;
            self.stop_reason = StopReason::NoStop;
        }

        if is_red {
            let distance_to_intersection = match self.direction {
                Direction::North => self.y - (CENTER_Y + ROAD_WIDTH / 2),
                Direction::South => (CENTER_Y - ROAD_WIDTH / 2) - (self.y + self.height),
                Direction::East => (CENTER_X - ROAD_WIDTH / 2) - self.x - self.width,
                Direction::West => self.x - (CENTER_X + ROAD_WIDTH / 2),
            };

            if distance_to_intersection < STOP_LINE_WINDOW && distance_to_intersection > 0 {
                self.stopped = true;
                self.stop_reason = StopReason::TrafficLight;
            }
        }
    }

    /// True while the vehicle may execute a turn this tick: inside the
    /// turn zone, moving, and not yet turned on this pass.
    pub open spec fn turn_applies(self) -> bool {
        self.in_turn_zone_spec() && !self.stopped && !self.turn_executed
    }

    /// The vehicle rewritten by its turn: heading rotated, extent swapped,
    /// position moved onto the new lane, and the realignment target set
    /// for the lane it now travels; a straight-through vehicle only
    /// re-affirms its target lane. Either way the arrival tick is
    /// forgotten and both turn flags are set.
    pub open spec fn executed_turn(self) -> Vehicle {
        let flagged = Vehicle {
            turn_executed: true,
            has_turned: true,
            arrival_time: None,
            ..self
        };
        match (self.direction, self.turn) {
            (Direction::North, Turn::Left) => Vehicle {
                direction: Direction::West,
                x: (CENTER_X - self.height) as i32,
                y: (CENTER_Y - LANE_WIDTH / 2) as i32,
                target_y: (WESTBOUND_LANE_CENTER - 10) as i32,
                width: self.height,
                height: self.width,
                ..flagged
            },
            (Direction::North, Turn::Right) => Vehicle {
                direction: Direction::East,
                x: CENTER_X,
                y: (CENTER_Y + LANE_WIDTH / 2) as i32,
                target_y: (EASTBOUND_LANE_CENTER - 10) as i32,
                width: self.height,
                height: self.width,
                ..flagged
            },
            (Direction::North, Turn::Straight) => Vehicle {
                target_x: (NORTHBOUND_LANE_CENTER - 10) as i32,
                ..flagged
            },
            (Direction::South, Turn::Left) => Vehicle {
                direction: Direction::East,
                x: CENTER_X,
                y: (CENTER_Y + LANE_WIDTH / 2) as i32,
                target_y: (EASTBOUND_LANE_CENTER - 10) as i32,
                width: self.height,
                height: self.width,
                ..flagged
            },
            (Direction::South, Turn::Right) => Vehicle {
                direction: Direction::West,
                x: (CENTER_X - self.height) as i32,
                y: (CENTER_Y - LANE_WIDTH / 2) as i32,
                target_y: (WESTBOUND_LANE_CENTER - 10) as i32,
                width: self.height,
                height: self.width,
                ..flagged
            },
            (Direction::South, Turn::Straight) => Vehicle {
                target_x: (SOUTHBOUND_LANE_CENTER - 10) as i32,
                ..flagged
            },
            (Direction::East, Turn::Left) => Vehicle {
                direction: Direction::North,
                x: (CENTER_X - LANE_WIDTH / 2) as i32,
                y: (CENTER_Y - self.height) as i32,
                target_x: (NORTHBOUND_LANE_CENTER - 10) as i32,
                width: self.height,
                height: self.width,
                ..flagged
            },
            (Direction::East, Turn::Right) => Vehicle {
                direction: Direction::South,
                x: (CENTER_X + LANE_WIDTH / 2) as i32,
                y: CENTER_Y,
                target_x: (SOUTHBOUND_LANE_CENTER - 10) as i32,
                width: self.height,
                height: self.width,
                ..flagged
            },
            (Direction::East, Turn::Straight) => Vehicle {
                target_y: (EASTBOUND_LANE_CENTER - 10) as i32,
                ..flagged
            },
            (Direction::West, Turn::Left) => Vehicle {
                direction: Direction::South,
                x: (CENTER_X + LANE_WIDTH / 2) as i32,
                y: CENTER_Y,
                target_x: (SOUTHBOUND_LANE_CENTER - 10) as i32,
                width: self.height,
                height: self.width,
                ..flagged
            },
            (Direction::West, Turn::Right) => Vehicle {
                direction: Direction::North,
                x: (CENTER_X - LANE_WIDTH / 2) as i32,
                y: (CENTER_Y - self.height) as i32,
                target_x: (NORTHBOUND_LANE_CENTER - 10) as i32,
                width: self.height,
                height: self.width,
                ..flagged
            },
            (Direction::West, Turn::Straight) => Vehicle {
                target_y: (WESTBOUND_LANE_CENTER - 10) as i32,
                ..flagged
            },
        }
    }

    /// The vehicle after the turn step: rewritten by its turn when the
    /// turn step applies, unchanged otherwise.
    pub open spec fn turn_applied(self) -> Vehicle {
        if self.turn_applies() { self.executed_turn() } else { self }
    }

    /// The vehicle moved along its direction by its current speed.
    pub open spec fn advanced(self) -> Vehicle {
        match self.direction {
            Direction::North => Vehicle { y: (self.y - self.current_speed) as i32, ..self },
            Direction::South => Vehicle { y: (self.y + self.current_speed) as i32, ..self },
            Direction::East => Vehicle { x: (self.x + self.current_speed) as i32, ..self },
            Direction::West => Vehicle { x: (self.x - self.current_speed) as i32, ..self },
        }
    }

    /// The vehicle nudged one unit laterally toward its target lane, once
    /// it has turned and left the intersection area; the last unit snaps
    /// onto the target exactly.
    pub open spec fn lane_adjusted(self) -> Vehicle {
        if self.in_area_spec() || !self.has_turned {
            self
        } else {
            match self.direction {
                Direction::North | Direction::South => {
                    if iabs(self.x - self.target_x) > 1 {
                        Vehicle {
                            x: (if self.x < self.target_x { self.x + 1 } else { self.x - 1 }) as i32,
                            ..self
                        }
                    } else {
                        Vehicle { x: self.target_x, ..self }
                    }
                }
                Direction::East | Direction::West => {
                    if iabs(self.y - self.target_y) > 1 {
                        Vehicle {
                            y: (if self.y < self.target_y { self.y + 1 } else { self.y - 1 }) as i32,
                            ..self
                        }
                    } else {
                        Vehicle { y: self.target_y, ..self }
                    }
                }
            }
        }
    }

    /// Executes the vehicle's turn at the intersection center when the
    /// turn step applies.
    pub fn handle_intersection_turn(&mut self)
        requires
            old(self).wf(),
        ensures
            *final(self) == old(self).turn_applied(),
            final(self).wf(),
    {
        let zone = self.in_turn_zone();
        if zone && !self.stopped && !self.turn_executed {
            self.turn_executed = true;

            match self.direction {
                Direction::North => {
                    match self.turn {
                        Turn::Left => {
                            self.direction = Direction::West;
                            self.x = CENTER_X - self.height;
                            self.y = CENTER_Y - LANE_WIDTH / 2;
                            self.target_y = WESTBOUND_LANE_CENTER - 10;
                            let w = self.width;
                            self.width = self.height;
                            self.height = w;
                        }
                        Turn::Right => {
                            self.direction = Direction::East;
                            self.x = CENTER_X;
                            self.y = CENTER_Y + LANE_WIDTH / 2;
                            self.target_y = EASTBOUND_LANE_CENTER - 10;
                            let w = self.width;
                            self.width = self.height;
                            self.height = w;
                        }
                        Turn::Straight => {
                            self.target_x = NORTHBOUND_LANE_CENTER - 10;
                        }
                    }
                }
                Direction::South => {
                    match self.turn {
                        Turn::Left => {
                            self.direction = Direction::East;
                            self.x = CENTER_X;
                            self.y = CENTER_Y + LANE_WIDTH / 2;
                            self.target_y = EASTBOUND_LANE_CENTER - 10;
                            let w = self.width;
                            self.width = self.height;
                            self.height = w;
                        }
                        Turn::Right => {
                            self.direction = Direction::West;
                            self.x = CENTER_X - self.height;
                            self.y = CENTER_Y - LANE_WIDTH / 2;
                            self.target_y = WESTBOUND_LANE_CENTER - 10;
                            let w = self.width;
                            self.width = self.height;
                            self.height = w;
                        }
                        Turn::Straight => {
                            self.target_x = SOUTHBOUND_LANE_CENTER - 10;
                        }
                    }
                }
                Direction::East => {
                    match self.turn {
                        Turn::Left => {
                            self.direction = Direction::North;
                            self.x = CENTER_X - LANE_WIDTH / 2;
                            self.y = CENTER_Y - self.height;
                            self.target_x = NORTHBOUND_LANE_CENTER - 10;
                            let w = self.width;
                            self.width = self.height;
                            self.height = w;
                        }
                        Turn::Right => {
                            self.direction = Direction::South;
                            self.x = CENTER_X + LANE_WIDTH / 2;
                            self.y = CENTER_Y;
                            self.target_x = SOUTHBOUND_LANE_CENTER - 10;
                            let w = self.width;
                            self.width = self.height;
                            self.height = w;
                        }
                        Turn::Straight => {
                            self.target_y = EASTBOUND_LANE_CENTER - 10;
                        }
                    }
                }
                Direction::West => {
                    match self.turn {
                        Turn::Left => {
                            self.direction = Direction::South;
                            self.x = CENTER_X + LANE_WIDTH / 2;
                            self.y = CENTER_Y;
                            self.target_x = SOUTHBOUND_LANE_CENTER - 10;
                            let w = self.width;
                            self.width = self.height;
                            self.height = w;
                        }
                        Turn::Right => {
                            self.direction = Direction::North;
                            self.x = CENTER_X - LANE_WIDTH / 2;
                            self.y = CENTER_Y - self.height;
                            self.target_x = NORTHBOUND_LANE_CENTER - 10;
                            let w = self.width;
                            self.width = self.height;
                            self.height = w;
                        }
                        Turn::Straight => {
                            self.target_y = WESTBOUND_LANE_CENTER - 10;
                        }
                    }
                }
            }
            self.has_turned = true;
            self.arrival_time = None;
        }
    }

    /// Moves the vehicle one unit laterally toward its target lane once it
    /// has turned and left the intersection area.
    pub fn adjust_lane_position(&mut self)
        requires
            old(self).wf(),
        ensures
            *final(self) == old(self).lane_adjusted(),
            final(self).wf(),
    {
        if self.in_intersection_area() || !self.has_turned {
            return;
        }

        match self.direction {
            Direction::North | Direction::South => {
                let d = self.x - self.target_x;
                let d = if d < 0 { -d } else { d };
                if d > 1 {
                    self.x = if self.x < self.target_x { self.x + 1 } else { self.x - 1 };
                } else {
                    self.x = self.target_x;
                }
            }
            Direction::East | Direction::West => {
                let d = self.y - self.target_y;
                let d = if d < 0 { -d } else { d };
                if d > 1 {
                    self.y = if self.y < self.target_y { self.y + 1 } else { self.y - 1 };
                } else {
                    self.y = self.target_y;
                }
            }
        }
    }

    /// The vehicle with any stop reason other than a traffic light
    /// released; vehicle-ahead and intersection-conflict stops are
    /// re-evaluated fresh each tick.
    pub open spec fn transient_cleared(self) -> Vehicle {
        if self.stop_reason == StopReason::VehicleAhead
            || self.stop_reason == StopReason::IntersectionConflict {
            Vehicle { stopped: false, stop_reason: StopReason::NoStop, ..self }
        } else {
            self
        }
    }

    /// True while a late change of turn intent is still possible: the
    /// vehicle approaches the intersection, stands outside its area, has
    /// not turned, and is moving.
    pub open spec fn turn_mutable(self) -> bool {
        self.approaching_spec() && !self.in_area_spec() && !self.has_turned && !self.stopped
    }

    /// The vehicle with its turn intent replaced by `t` when a late
    /// change is possible, unchanged otherwise.
    pub open spec fn rerolled(self, t: Turn) -> Vehicle {
        if self.turn_mutable() { Vehicle { turn: t, ..self } } else { self }
    }

    /// While still approaching the intersection and moving, re-rolls the
    /// turn intent with fixed probability; models drivers deciding late
    /// whether to turn. Every field but the turn intent is left alone,
    /// and the intent only changes while a change is still possible.
    pub fn randomize_turn_if_needed(&mut self)
        ensures
            *final(self) == old(self).rerolled(final(self).turn),
    {
        if self.approaching_intersection() && !self.in_intersection_area()
            && !self.has_turned && !self.stopped {
            if crate::rng::random_below(10) < 3 {
                self.turn = Turn::random();
            }
        }
    }

    /// The vehicle's whole state one tick later, given the peers visible
    /// to it, the peer index to skip, the signal controller, and the turn
    /// intent `t` that a late random re-roll would leave behind.
    ///
    /// In order: the tick counter advances; transient stop reasons are
    /// released; the turn intent may change; car-following, intersection
    /// arbitration and the traffic-light check each re-evaluate the stop
    /// state; an unstopped vehicle then executes its turn when due,
    /// advances by its speed and realigns toward its lane, while a
    /// vehicle stopped for an unresolved conflict inside the intersection
    /// is force-released every [`RELEASE_PERIOD`] ticks.
    pub open spec fn step_spec(
        self,
        peers: Seq<Vehicle>,
        skip: int,
        s: TrafficLightSystem,
        t: Turn,
    ) -> Vehicle {
        let aged = Vehicle { global_tick: (self.global_tick + 1) as u64, ..self };
        let chosen = aged.transient_cleared().rerolled(t);
        let followed = chosen.follow_applied(peers, skip);
        let lit = followed.conflicts_spec(peers, skip).light_spec_update(s);
        lit.moved_spec()
    }

    /// The movement phase closing a tick: an unstopped vehicle executes
    /// its turn when due, advances by its current speed and realigns
    /// toward its lane; a vehicle stopped for an unresolved intersection
    /// conflict inside the intersection is force-released every
    /// [`RELEASE_PERIOD`] ticks; any other stopped vehicle stands still.
    pub open spec fn moved_spec(self) -> Vehicle {
        if !self.stopped {
            self.turn_applied().advanced().lane_adjusted()
        } else if self.in_area_spec() && self.stop_reason == StopReason::IntersectionConflict
            && self.global_tick % RELEASE_PERIOD == 0 {
            Vehicle { stopped: false, stop_reason: StopReason::NoStop, ..self }
        } else {
            self
        }
    }

    /// Runs the movement phase: turn execution, position integration and
    /// lane realignment for a moving vehicle, or the periodic deadlock
    /// release for one stuck on a conflict inside the intersection.
    fn move_phase(&mut self)
        requires
            old(self).wf(),
            -MOVE_REGION - 1 <= old(self).x <= MOVE_REGION + 1,
            -MOVE_REGION - 1 <= old(self).y <= MOVE_REGION + 1,
        ensures
            *final(self) == old(self).moved_spec(),
            final(self).wf(),
    {
        if !self.stopped {
            self.handle_intersection_turn();

            match self.direction {
                Direction::North => self.y = self.y - self.current_speed,
                Direction::South => self.y = self.y + self.current_speed,
                Direction::East => self.x = self.x + self.current_speed,
                Direction::West => self.x = self.x - self.current_speed,
            }

            self.adjust_lane_position();
        } else if self.in_intersection_area()
            && self.stop_reason == StopReason::IntersectionConflict {
            if self.global_tick % RELEASE_PERIOD == 0 {
                self.stopped = false;
                self.stop_reason = StopReason::NoStop;
            }
        }
    }

    /// Advances this vehicle by one tick against a snapshot of its peers
    /// and the signal controller, as [`Self::step_spec`] describes; the
    /// turn intent left in place is the one the random re-roll chose.
    ///
    /// One tick moves each coordinate by at most one acceleration-bounded
    /// step — unless the vehicle executed its turn, which can only happen
    /// with its travel-axis coordinate already at the intersection
    /// center, and leaves it near the center.
    #[verifier::rlimit(100)]
    #[verifier::spinoff_prover]
    pub fn update(
        &mut self,
        vehicles: &Vec<Vehicle>,
        current_index: usize,
        traffic_system: &TrafficLightSystem,
    )
        requires
            old(self).wf(),
            old(self).in_move_region(),
            old(self).global_tick < u64::MAX,
            forall|i: int| 0 <= i < vehicles@.len() ==> (#[trigger] vehicles@[i]).wf(),
        ensures
            *final(self) == old(self).step_spec(
                vehicles@, current_index as int, *traffic_system, final(self).turn),
            final(self).wf(),
    {
        let ghost v0 = *old(self);
        let ghost aged = Vehicle { global_tick: (v0.global_tick + 1) as u64, ..v0 };

        self.global_tick = self.global_tick + 1;

        if self.stop_reason == StopReason::VehicleAhead
            || self.stop_reason == StopReason::IntersectionConflict {
            self.stopped = false;
            self.stop_reason = StopReason::NoStop;
        }

        proof {
            assert(*self == aged.transient_cleared());
        }

        self.randomize_turn_if_needed();
        let ghost chosen = *self;

        self.check_same_direction_vehicles(vehicles, current_index);
        self.check_intersection_conflicts(vehicles, current_index);
        self.check_traffic_light(traffic_system);
        let ghost lit = *self;

        self.move_phase();

        proof {
            assert(self.turn == chosen.turn);
            assert(chosen == aged.transient_cleared().rerolled(self.turn));
            assert(lit == chosen.follow_applied(vehicles@, current_index as int)
                .conflicts_spec(vehicles@, current_index as int)
                .light_spec_update(*traffic_system));
            assert(*self == v0.step_spec(
                vehicles@, current_index as int, *traffic_system, self.turn));
        }
    }

    /// The vehicle after the full stop re-evaluation used at spawn time:
    /// transient reasons released, then car-following, intersection
    /// arbitration and the traffic-light check in order.
    pub open spec fn evaluated_spec(
        self,
        peers: Seq<Vehicle>,
        skip: int,
        s: TrafficLightSystem,
    ) -> Vehicle {
        self.transient_cleared().follow_applied(peers, skip)
            .conflicts_spec(peers, skip).light_spec_update(s)
    }

    /// Releases any transient stop, then re-evaluates car-following,
    /// intersection arbitration and the traffic light in order.
    pub fn check_vehicles_ahead(
        &mut self,
        vehicles: &Vec<Vehicle>,
        current_index: usize,
        traffic_system: &TrafficLightSystem,
    )
        requires
            old(self).wf(),
            old(self).in_move_region(),
            forall|i: int| 0 <= i < vehicles@.len() ==> (#[trigger] vehicles@[i]).wf(),
        ensures
            *final(self) == old(self).evaluated_spec(
                vehicles@, current_index as int, *traffic_system),
            final(self).wf(),
            iabs(final(self).x - old(self).x) <= 1,
            iabs(final(self).y - old(self).y) <= 1,
    {
        if self.stop_reason == StopReason::VehicleAhead
            || self.stop_reason == StopReason::IntersectionConflict {
            self.stopped = false;
            self.stop_reason = StopReason::NoStop;
        }

        self.check_same_direction_vehicles(vehicles, current_index);
        self.check_intersection_conflicts(vehicles, current_index);
        self.check_traffic_light(traffic_system);
    }

    /// The vehicle after the gated re-evaluation: the traffic light
    /// first; only when not held at a red light, car-following; and only
    /// when not held behind a vehicle ahead, intersection arbitration.
    pub open spec fn gated_checks_spec(
        self,
        peers: Seq<Vehicle>,
        skip: int,
        s: TrafficLightSystem,
    ) -> Vehicle {
        let lit = self.light_spec_update(s);
        if lit.stop_reason != StopReason::TrafficLight {
            let followed = lit.follow_applied(peers, skip);
            if followed.stop_reason != StopReason::VehicleAhead {
                followed.conflicts_spec(peers, skip)
            } else {
                followed
            }
        } else {
            lit
        }
    }

    /// Re-evaluates the traffic light, and only where it does not demand
    /// a halt, car-following and then intersection arbitration.
    pub fn check_traffic_and_vehicles(
        &mut self,
        vehicles: &Vec<Vehicle>,
        current_index: usize,
        traffic_system: &TrafficLightSystem,
    )
        requires
            old(self).wf(),
            old(self).in_move_region(),
            forall|i: int| 0 <= i < vehicles@.len() ==> (#[trigger] vehicles@[i]).wf(),
        ensures
            *final(self) == old(self).gated_checks_spec(
                vehicles@, current_index as int, *traffic_system),
            final(self).wf(),
    {
        self.check_traffic_light(traffic_system);

        if !(self.stop_reason == StopReason::TrafficLight) {
            self.check_same_direction_vehicles(vehicles, current_index);

            if !(self.stop_reason == StopReason::VehicleAhead) {
                self.check_intersection_conflicts(vehicles, current_index);
            }
        }
    }

    /// The state of a fresh vehicle heading in the given direction with
    /// the given turn intent: placed at the off-screen spawn point of its
    /// approach lane, moving at one unit per tick toward a top speed of
    /// three, with no stop and no recorded arrival.
    pub open spec fn spawn_spec(direction: Direction, t: Turn) -> Vehicle {
        let (x, y, width, height, target_x, target_y): (int, int, int, int, int, int) =
            match direction {
                Direction::North => (
                    NORTHBOUND_LANE_CENTER - 10,
                    WORLD_HEIGHT + 50,
                    20,
                    40,
                    NORTHBOUND_LANE_CENTER - 10,
                    i32::MAX as int,
                ),
                Direction::South => (
                    SOUTHBOUND_LANE_CENTER - 10,
                    -50,
                    20,
                    40,
                    SOUTHBOUND_LANE_CENTER - 10,
                    i32::MAX as int,
                ),
                Direction::East => (
                    -50,
                    EASTBOUND_LANE_CENTER - 10,
                    40,
                    20,
                    i32::MAX as int,
                    EASTBOUND_LANE_CENTER - 10,
                ),
                Direction::West => (
                    WORLD_WIDTH + 50,
                    WESTBOUND_LANE_CENTER - 10,
                    40,
                    20,
                    i32::MAX as int,
                    WESTBOUND_LANE_CENTER - 10,
                ),
            };
        Vehicle {
            x: x as i32,
            y: y as i32,
            direction,
            turn: t,
            width: width as i32,
            height: height as i32,
            stopped: false,
            stop_reason: StopReason::NoStop,
            max_speed: 3,
            current_speed: 1,
            acceleration: 1,
            deceleration: 2,
            following_distance: 50,
            arrival_time: None,
            global_tick: 0,
            has_turned: false,
            turn_executed: false,
            target_x: target_x as i32,
            target_y: target_y as i32,
        }
    }

    /// Creates a vehicle heading in the given direction with the given
    /// turn intent, at the spawn point of its approach lane.
    pub fn new_with_turn(direction: Direction, turn: Turn) -> (v: Vehicle)
        ensures
            v == Vehicle::spawn_spec(direction, turn),
            v.wf(),
            v.in_move_region(),
    {
        let (x, y, width, height, target_x, target_y) = match direction {
            Direction::North => (
                NORTHBOUND_LANE_CENTER - 10,
                WORLD_HEIGHT + 50,
                20,
                40,
                NORTHBOUND_LANE_CENTER - 10,
                i32::MAX,
            ),
            Direction::South => (
                SOUTHBOUND_LANE_CENTER - 10,
                -50,
                20,
                40,
                SOUTHBOUND_LANE_CENTER - 10,
                i32::MAX,
            ),
            Direction::East => (
                -50,
                EASTBOUND_LANE_CENTER - 10,
                40,
                20,
                i32::MAX,
                EASTBOUND_LANE_CENTER - 10,
            ),
            Direction::West => (
                WORLD_WIDTH + 50,
                WESTBOUND_LANE_CENTER - 10,
                40,
                20,
                i32::MAX,
                WESTBOUND_LANE_CENTER - 10,
            ),
        };

        Vehicle {
            x,
            y,
            direction,
            turn,
            width,
            height,
            stopped: false,
            stop_reason: StopReason::NoStop,
            max_speed: 3,
            current_speed: 1,
            acceleration: 1,
            deceleration: 2,
            following_distance: 50,
            arrival_time: None,
            global_tick: 0,
            has_turned: false,
            turn_executed: false,
            target_x,
            target_y,
        }
    }

    /// Creates a vehicle heading in the given direction, with a turn
    /// intent chosen at random.
    pub fn new(direction: Direction) -> (v: Vehicle)
        ensures
            v == Vehicle::spawn_spec(direction, v.turn),
            v.wf(),
            v.in_move_region(),
    {
        let turn = Turn::random();
        Vehicle::new_with_turn(direction, turn)
    }

    /// The red/green/blue display encoding of a turn intent: red for
    /// left, green for right, blue for straight.
    pub open spec fn color_spec(t: Turn) -> (u8, u8, u8) {
        match t {
            Turn::Left => (255u8, 0u8, 0u8),
            Turn::Right => (0u8, 255u8, 0u8),
            Turn::Straight => (0u8, 0u8, 255u8),
        }
    }

    /// The vehicle's display color, encoding its turn intent.
    pub fn display_color(&self) -> (c: (u8, u8, u8))
        ensures
            c == Vehicle::color_spec(self.turn),
    {
        match self.turn {
            Turn::Left => (255, 0, 0),
            Turn::Right => (0, 255, 0),
            Turn::Straight => (0, 0, 255),
        }
    }
}

/// One tick moves each coordinate of a well-formed vehicle by at most one
/// speed-bounded step plus one realignment unit — unless the vehicle
/// executed its turn, which requires its travel-axis coordinate to stand
/// at the intersection center already and leaves it near the center.
pub proof fn lemma_step_movement(
    v: Vehicle,
    peers: Seq<Vehicle>,
    skip: int,
    s: TrafficLightSystem,
    t: Turn,
)
    requires
        v.wf(),
        v.global_tick < u64::MAX,
    ensures
        ({
            let w = v.step_spec(peers, skip, s, t);
            (iabs(w.x - v.x) <= v.max_speed + 1 && iabs(w.y - v.y) <= v.max_speed + 1)
            || (iabs(w.x - CENTER_X) <= 200 && iabs(w.y - CENTER_Y) <= 200
                && (is_north_south(v.direction) ==> iabs(v.y - CENTER_Y) <= TURN_EXECUTION_ZONE)
                && (!is_north_south(v.direction) ==> iabs(v.x - CENTER_X) <= TURN_EXECUTION_ZONE))
        }),
{
    let aged = Vehicle { global_tick: (v.global_tick + 1) as u64, ..v };
    let chosen = aged.transient_cleared().rerolled(t);
    let followed = chosen.follow_applied(peers, skip);
    let lit = followed.conflicts_spec(peers, skip).light_spec_update(s);
    let w = v.step_spec(peers, skip, s, t);

    assert(chosen.x == v.x && chosen.y == v.y && chosen.wf());
    assert(chosen.direction == v.direction && chosen.max_speed == v.max_speed);
    assert(iabs(followed.x - v.x) <= 1 && iabs(followed.y - v.y) <= 1);
    assert(followed.x != v.x || followed.y != v.y
        ==> followed.stopped && followed.stop_reason == StopReason::VehicleAhead);
    assert(followed.current_speed <= followed.max_speed == v.max_speed);
    assert(lit.x == followed.x && lit.y == followed.y);
    assert(lit.direction == v.direction && lit.max_speed == v.max_speed);
    assert(lit.current_speed <= followed.current_speed || lit.current_speed == 0);

    if !lit.stopped {
        assert(lit.x == v.x && lit.y == v.y);
        let turned = lit.turn_applied();
        if lit.turn_applies() && lit.turn != Turn::Straight {
            assert(lit.in_turn_zone_spec());
            assert(iabs(turned.x - CENTER_X) <= 100 && iabs(turned.y - CENTER_Y) <= 100);
            assert(iabs(turned.advanced().x - CENTER_X) <= 110
                && iabs(turned.advanced().y - CENTER_Y) <= 110);
            assert(iabs(w.x - CENTER_X) <= 200 && iabs(w.y - CENTER_Y) <= 200);
        } else {
            assert(turned.x == lit.x && turned.y == lit.y
                && turned.current_speed == lit.current_speed
                && turned.direction == lit.direction);
            assert(iabs(turned.advanced().x - v.x) <= v.max_speed
                && iabs(turned.advanced().y - v.y) <= v.max_speed);
            assert(iabs(w.x - v.x) <= v.max_speed + 1 && iabs(w.y - v.y) <= v.max_speed + 1);
        }
    } else {
        assert(w.x == lit.x && w.y == lit.y);
    }
}

/// Arrival-order arbitration, the decision table: of two vehicles with
/// recorded arrival ticks, the later arrival yields to the earlier, and
/// the earlier never yields to the later.
pub proof fn lemma_arrival_order_decides(a: Vehicle, b: Vehicle, ta: u64, tb: u64)
    requires
        a.arrival_time == Some(ta),
        b.arrival_time == Some(tb),
        ta < tb,
    ensures
        b.yields_to_spec(a),
        !a.yields_to_spec(b),
{
}

/// Arrival-order arbitration, the losing side: an approaching vehicle
/// with the later recorded arrival that conflicts with an arbitration
/// peer holding the earlier arrival comes out of the arbitration stopped
/// with the intersection-conflict reason.
pub proof fn lemma_later_arrival_stops(
    b: Vehicle,
    a: Vehicle,
    peers: Seq<Vehicle>,
    skip: int,
    j: int,
    ta: u64,
    tb: u64,
)
    requires
        b.approaching_spec(),
        b.stop_reason != StopReason::TrafficLight,
        b.arrival_time == Some(tb),
        a.arrival_time == Some(ta),
        ta < tb,
        0 <= j < peers.len(),
        j != skip,
        peers[j] == a,
        conflict_candidate(a),
        b.will_collide_spec(a),
    ensures
        b.conflicts_spec(peers, skip).stopped,
        b.conflicts_spec(peers, skip).stop_reason == StopReason::IntersectionConflict,
        b.conflicts_spec(peers, skip).current_speed == 0,
{
    assert(b.with_arrival() == b);
    lemma_arrival_order_decides(a, b, ta, tb);
    assert(b.must_yield_somewhere(peers, skip));
}

/// Arrival-order arbitration, the winning side: an approaching, moving
/// vehicle with the earlier recorded arrival, whose only arbitration peer
/// is the later arrival, passes the arbitration unstopped.
pub proof fn lemma_earlier_arrival_passes(
    a: Vehicle,
    b: Vehicle,
    skip: int,
    ta: u64,
    tb: u64,
)
    requires
        a.approaching_spec(),
        a.stop_reason == StopReason::NoStop,
        a.arrival_time == Some(ta),
        b.arrival_time == Some(tb),
        ta < tb,
        skip != 0,
    ensures
        a.conflicts_spec(seq![b], skip) == a,
        !a.conflicts_spec(seq![b], skip).stopped == !a.stopped,
{
    assert(a.with_arrival() == a);
    lemma_arrival_order_decides(a, b, ta, tb);
    assert(!a.must_yield_somewhere(seq![b], skip)) by {
        assert forall|i: int| !(0 <= i < 1 && i != skip
            && conflict_candidate(#[trigger] seq![b][i])
            && a.will_collide_spec(seq![b][i])
            && a.yields_to_spec(seq![b][i])) by {
            if 0 <= i < 1 {
                assert(seq![b][i] == b);
                assert(!a.yields_to_spec(b));
            }
        }
    }
}

/// True when the two vehicles occupy the same rectangle: equal position
/// and equal extent.
pub open spec fn same_footprint(a: Vehicle, b: Vehicle) -> bool {
    a.x == b.x && a.y == b.y && a.width == b.width && a.height == b.height
}

/// The car-following scan reads only a vehicle's heading and footprint:
/// two vehicles that agree on those scan the same peers identically.
pub proof fn lemma_scan_ahead_footprint(a: Vehicle, b: Vehicle, peers: Seq<Vehicle>, skip: int)
    requires
        same_footprint(a, b),
        a.direction == b.direction,
    ensures
        scan_ahead(a, peers, skip) == scan_ahead(b, peers, skip),
    decreases peers.len(),
{
    if peers.len() > 0 {
        lemma_scan_ahead_footprint(a, b, peers.drop_last(), skip);
    }
}

/// The footprint of a freshly spawned vehicle after its spawn-time
/// re-evaluation does not depend on the drawn turn intent: only
/// car-following can nudge the position, and it never reads the turn;
/// arbitration and the light check leave position and extent alone.
pub proof fn lemma_spawn_footprint_turn_blind(
    direction: Direction,
    t1: Turn,
    t2: Turn,
    peers: Seq<Vehicle>,
    skip: int,
    s: TrafficLightSystem,
)
    ensures
        same_footprint(
            Vehicle::spawn_spec(direction, t1).evaluated_spec(peers, skip, s),
            Vehicle::spawn_spec(direction, t2).evaluated_spec(peers, skip, s),
        ),
{
    let a1 = Vehicle::spawn_spec(direction, t1).transient_cleared();
    let b1 = Vehicle::spawn_spec(direction, t2).transient_cleared();
    lemma_scan_ahead_footprint(a1, b1, peers, skip);
    let gap = scan_ahead(a1, peers, skip).0;
    let ahead_stopped = scan_ahead(a1, peers, skip).1;
    let a2 = a1.follow_spec(gap, ahead_stopped);
    let b2 = b1.follow_spec(gap, ahead_stopped);
    assert(same_footprint(a2, b2));
    assert(same_footprint(a2.conflicts_spec(peers, skip), a2));
    assert(same_footprint(b2.conflicts_spec(peers, skip), b2));
    assert(same_footprint(
        a2.conflicts_spec(peers, skip).light_spec_update(s),
        a2.conflicts_spec(peers, skip),
    ));
    assert(same_footprint(
        b2.conflicts_spec(peers, skip).light_spec_update(s),
        b2.conflicts_spec(peers, skip),
    ));
}

/// Stop-reason exclusivity: a well-formed vehicle that is not stopped
/// carries no stop reason.
pub proof fn lemma_stop_reason_exclusive(v: Vehicle)
    requires
        v.wf(),
    ensures
        !v.stopped ==> v.stop_reason == StopReason::NoStop,
{
}

impl Turn {
    /// The turn intent a draw index selects: the first index turns left,
    /// the second turns right, and every other index goes straight.
    pub open spec fn of_index_spec(r: u32) -> Turn {
        if r == 0 {
            Turn::Left
        } else if r == 1 {
            Turn::Right
        } else {
            Turn::Straight
        }
    }

    /// Maps a draw index to its turn intent.
    pub fn of_index(r: u32) -> (t: Turn)
        ensures
            t == Turn::of_index_spec(r),
    {
        if r == 0 {
            Turn::Left
        } else if r == 1 {
            Turn::Right
        } else {
            Turn::Straight
        }
    }

    /// Draws a turn intent uniformly at random.
    pub fn random() -> Turn {
        Turn::of_index(crate::rng::random_below(3))
    }
}

} // verus!
