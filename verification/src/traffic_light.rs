//! The adaptive signal controller.
//!
//! The controller owns the red/green state of the two phase groups
//! (north-south and east-west), the time of the last phase change, and one
//! congestion counter per axis. It flips the active pair once the elapsed
//! time reaches the current cycle length, and adapts that cycle length to
//! the congestion measured on the red axis.

use vstd::prelude::*;
use crate::vehicle::{Vehicle, Direction, StopReason, is_north_south};

verus! {

/// Cycle length used when no adaptation rule applies, in clock units.
pub const DEFAULT_INTERVAL: u64 = 5;

/// Shortest cycle length the controller may adapt to.
pub const MIN_INTERVAL: u64 = 3;

/// Longest cycle length the controller may adapt to.
pub const MAX_INTERVAL: u64 = 10;

/// A red axis with at least this many vehicles stopped for its light pulls
/// the cycle length down to the minimum.
pub const CONGESTION_THRESHOLD: u32 = 4;

/// With both axes below this count, the cycle length is stretched to the
/// maximum to reduce needless phase churn.
pub const LOW_CONGESTION_THRESHOLD: u32 = 2;

/// Color shown to one approach direction.
#[derive(Clone, Copy, PartialEq, Eq, Structural, Debug)]
pub enum TrafficLightState {
    Red,
    Green,
}

/// The signal controller's full state.
pub struct TrafficLightSystem {
    pub north_state: TrafficLightState,
    pub south_state: TrafficLightState,
    pub east_state: TrafficLightState,
    pub west_state: TrafficLightState,
    pub last_change: u64,
    pub change_interval: u64,
    pub min_interval: u64,
    pub max_interval: u64,
    pub north_south_congestion: u32,
    pub east_west_congestion: u32,
}

/// True of a vehicle currently held at a red light.
pub open spec fn stopped_for_light(v: Vehicle) -> bool {
    v.stopped && v.stop_reason == StopReason::TrafficLight
}

/// Number of vehicles in the sequence stopped for a light on the
/// north-south axis.
pub open spec fn ns_congestion_of(vs: Seq<Vehicle>) -> int
    decreases vs.len(),
{
    if vs.len() == 0 {
        0
    } else {
        ns_congestion_of(vs.drop_last())
            + if stopped_for_light(vs.last()) && is_north_south(vs.last().direction) { 1int } else { 0 }
    }
}

/// Number of vehicles in the sequence stopped for a light on the east-west
/// axis.
pub open spec fn ew_congestion_of(vs: Seq<Vehicle>) -> int
    decreases vs.len(),
{
    if vs.len() == 0 {
        0
    } else {
        ew_congestion_of(vs.drop_last())
            + if stopped_for_light(vs.last()) && !is_north_south(vs.last().direction) { 1int } else { 0 }
    }
}

/// Both congestion counts lie between zero and the sequence length.
pub proof fn lemma_congestion_bounds(vs: Seq<Vehicle>)
    ensures
        0 <= ns_congestion_of(vs) <= vs.len(),
        0 <= ew_congestion_of(vs) <= vs.len(),
    decreases vs.len(),
{
    if vs.len() > 0 {
        lemma_congestion_bounds(vs.drop_last());
    }
}

impl TrafficLightSystem {
    /// True while the north-south pair is green.
    pub open spec fn north_south_green(self) -> bool {
        self.north_state == TrafficLightState::Green
    }

    /// True while the east-west pair is green.
    pub open spec fn east_west_green(self) -> bool {
        self.east_state == TrafficLightState::Green
    }

    /// Congestion measured on whichever axis currently shows red.
    pub open spec fn red_axis_congestion(self) -> u32 {
        if self.north_south_green() { self.east_west_congestion } else { self.north_south_congestion }
    }

    /// Congestion measured on whichever axis currently shows green.
    pub open spec fn green_axis_congestion(self) -> u32 {
        if self.north_south_green() { self.north_south_congestion } else { self.east_west_congestion }
    }

    /// Internal consistency: the directions of one axis always agree,
    /// exactly one axis is green, and the cycle length stays between its
    /// configured bounds, which bracket the default.
    pub open spec fn wf(self) -> bool {
        &&& self.south_state == self.north_state
        &&& self.west_state == self.east_state
        &&& self.north_south_green() != self.east_west_green()
        &&& self.min_interval <= DEFAULT_INTERVAL <= self.max_interval
        &&& self.min_interval <= self.change_interval <= self.max_interval
    }

    /// The controller's state at simulation start: north-south red,
    /// east-west green, default cycle length, no congestion measured.
    pub open spec fn initial_spec() -> TrafficLightSystem {
        TrafficLightSystem {
            north_state: TrafficLightState::Red,
            south_state: TrafficLightState::Red,
            east_state: TrafficLightState::Green,
            west_state: TrafficLightState::Green,
            last_change: 0,
            change_interval: DEFAULT_INTERVAL,
            min_interval: MIN_INTERVAL,
            max_interval: MAX_INTERVAL,
            north_south_congestion: 0,
            east_west_congestion: 0,
        }
    }

    /// The cycle length after adaptation: the minimum when the red axis is
    /// congested, the default when both axes are congested (which prevents
    /// oscillation), the maximum when both are nearly clear, the default
    /// otherwise.
    pub open spec fn adapt_spec(self) -> TrafficLightSystem {
        let base = if self.north_south_green() {
            if self.east_west_congestion >= CONGESTION_THRESHOLD { self.min_interval } else { DEFAULT_INTERVAL }
        } else {
            if self.north_south_congestion >= CONGESTION_THRESHOLD { self.min_interval } else { DEFAULT_INTERVAL }
        };
        let balanced = if self.north_south_congestion >= CONGESTION_THRESHOLD
            && self.east_west_congestion >= CONGESTION_THRESHOLD { DEFAULT_INTERVAL } else { base };
        let quiet = if self.north_south_congestion < LOW_CONGESTION_THRESHOLD
            && self.east_west_congestion < LOW_CONGESTION_THRESHOLD { self.max_interval } else { balanced };
        TrafficLightSystem { change_interval: quiet, ..self }
    }

    /// The controller with both congestion counters replaced by the counts
    /// measured over the given vehicles.
    pub open spec fn sampled_spec(self, vs: Seq<Vehicle>) -> TrafficLightSystem {
        TrafficLightSystem {
            north_south_congestion: ns_congestion_of(vs) as u32,
            east_west_congestion: ew_congestion_of(vs) as u32,
            ..self
        }
    }

    /// The controller after a phase-change evaluation at clock time `now`:
    /// flipped, with the timer reset, once the elapsed time reaches the
    /// cycle length; unchanged otherwise.
    pub open spec fn phase_spec(self, now: u64) -> TrafficLightSystem {
        if now - self.last_change >= self.change_interval {
            if self.north_state == TrafficLightState::Red {
                TrafficLightSystem {
                    north_state: TrafficLightState::Green,
                    south_state: TrafficLightState::Green,
                    east_state: TrafficLightState::Red,
                    west_state: TrafficLightState::Red,
                    last_change: now,
                    ..self
                }
            } else {
                TrafficLightSystem {
                    north_state: TrafficLightState::Red,
                    south_state: TrafficLightState::Red,
                    east_state: TrafficLightState::Green,
                    west_state: TrafficLightState::Green,
                    last_change: now,
                    ..self
                }
            }
        } else {
            self
        }
    }

    /// The color currently shown to the given approach direction.
    pub open spec fn light_spec(self, d: Direction) -> TrafficLightState {
        match d {
            Direction::North => self.north_state,
            Direction::South => self.south_state,
            Direction::East => self.east_state,
            Direction::West => self.west_state,
        }
    }

    /// Creates the controller in its start state.
    pub fn new() -> (s: Self)
        ensures
            s == Self::initial_spec(),
            s.wf(),
    {
        TrafficLightSystem {
            north_state: TrafficLightState::Red,
            south_state: TrafficLightState::Red,
            east_state: TrafficLightState::Green,
            west_state: TrafficLightState::Green,
            last_change: 0,
            change_interval: DEFAULT_INTERVAL,
            min_interval: MIN_INTERVAL,
            max_interval: MAX_INTERVAL,
            north_south_congestion: 0,
            east_west_congestion: 0,
        }
    }

    /// The color currently shown to the given approach direction.
    pub fn light_for(&self, d: Direction) -> (r: TrafficLightState)
        ensures
            r == self.light_spec(d),
    {
        match d {
            Direction::North => self.north_state,
            Direction::South => self.south_state,
            Direction::East => self.east_state,
            Direction::West => self.west_state,
        }
    }

    /// Sets the cycle length from the measured congestion, as
    /// [`Self::adapt_spec`] describes.
    pub fn adapt_timing(&mut self)
        ensures
            *final(self) == old(self).adapt_spec(),
    {
        if self.north_state == TrafficLightState::Green {
            self.change_interval = if self.east_west_congestion >= CONGESTION_THRESHOLD {
                self.min_interval
            } else {
                DEFAULT_INTERVAL
            };
        } else {
            self.change_interval = if self.north_south_congestion >= CONGESTION_THRESHOLD {
                self.min_interval
            } else {
                DEFAULT_INTERVAL
            };
        }

        if self.north_south_congestion >= CONGESTION_THRESHOLD
            && self.east_west_congestion >= CONGESTION_THRESHOLD {
            self.change_interval = DEFAULT_INTERVAL;
        }

        if self.north_south_congestion < LOW_CONGESTION_THRESHOLD
            && self.east_west_congestion < LOW_CONGESTION_THRESHOLD {
            self.change_interval = self.max_interval;
        }
    }

    /// Recomputes both congestion counters over the vehicle population,
    /// then adapts the cycle length to them.
    pub fn update_congestion(&mut self, vehicles: &Vec<Vehicle>)
        requires
            vehicles@.len() <= u32::MAX,
        ensures
            *final(self) == old(self).sampled_spec(vehicles@).adapt_spec(),
    {
        let mut ns: u32 = 0;
        let mut ew: u32 = 0;
        let mut i: usize = 0;
        proof {
            assert(vehicles@.take(0int) =~= Seq::<Vehicle>::empty());
        }
        while i < vehicles.len()
            invariant
                i <= vehicles@.len() <= u32::MAX,
                ns == ns_congestion_of(vehicles@.take(i as int)),
                ew == ew_congestion_of(vehicles@.take(i as int)),
            decreases vehicles@.len() - i,
        {
            proof {
                lemma_congestion_bounds(vehicles@.take(i as int));
                assert(vehicles@.take(i + 1).drop_last() =~= vehicles@.take(i as int));
                assert(vehicles@.take(i + 1).last() == vehicles@[i as int]);
            }
            let v = &vehicles[i];
            if v.stopped && v.stop_reason == StopReason::TrafficLight {
                match v.direction {
                    Direction::North | Direction::South => { ns = ns + 1; }
                    Direction::East | Direction::West => { ew = ew + 1; }
                }
            }
            i = i + 1;
        }
        proof {
            assert(vehicles@.take(vehicles@.len() as int) =~= vehicles@);
        }
        self.north_south_congestion = ns;
        self.east_west_congestion = ew;
        self.adapt_timing();
    }

    /// Flips the active pair and resets the timer once the elapsed clock
    /// time reaches the cycle length; otherwise leaves the state alone.
    pub fn update(&mut self, now: u64)
        requires
            old(self).last_change <= now,
        ensures
            *final(self) == old(self).phase_spec(now),
    {
        if now - self.last_change >= self.change_interval {
            if self.north_state == TrafficLightState::Red {
                self.north_state = TrafficLightState::Green;
                self.south_state = TrafficLightState::Green;
                self.east_state = TrafficLightState::Red;
                self.west_state = TrafficLightState::Red;
            } else {
                self.north_state = TrafficLightState::Red;
                self.south_state = TrafficLightState::Red;
                self.east_state = TrafficLightState::Green;
                self.west_state = TrafficLightState::Green;
            }
            self.last_change = now;
        }
    }
}

/// Mutual exclusion of phases: a well-formed controller shows green to
/// exactly one of the two axes — never both and never neither — and both
/// directions of an axis always agree.
pub proof fn lemma_phase_mutual_exclusion(s: TrafficLightSystem)
    requires
        s.wf(),
    ensures
        s.north_south_green() || s.east_west_green(),
        !(s.north_south_green() && s.east_west_green()),
        s.south_state == s.north_state,
        s.west_state == s.east_state,
{
}

/// Every operation of the controller preserves well-formedness, so phase
/// mutual exclusion holds at every tick.
pub proof fn lemma_operations_preserve_wf(s: TrafficLightSystem, vs: Seq<Vehicle>, now: u64)
    requires
        s.wf(),
    ensures
        s.adapt_spec().wf(),
        s.sampled_spec(vs).adapt_spec().wf(),
        s.phase_spec(now).wf(),
{
}

/// Congestion monotonicity: when the red axis has reached the congestion
/// threshold and the green axis has not, adaptation sets the next cycle
/// length for the green axis to the configured minimum.
pub proof fn lemma_congestion_forces_minimum(s: TrafficLightSystem)
    requires
        s.wf(),
        s.red_axis_congestion() >= CONGESTION_THRESHOLD,
        s.green_axis_congestion() < CONGESTION_THRESHOLD,
    ensures
        s.adapt_spec().change_interval == s.min_interval,
{
}

} // verus!
