//! The per-tick orchestrator.
//!
//! A simulation owns the vehicle population and the signal controller.
//! Once per tick it advances the controller, recomputes congestion from
//! the population, then re-evaluates and advances every vehicle against a
//! snapshot of its peers — reverting a move that would overlap another
//! vehicle — and finally removes vehicles that have left the world bounds.

use vstd::prelude::*;
use crate::geometry::{WORLD_WIDTH, WORLD_HEIGHT, EVICTION_MARGIN};
use crate::vehicle::{Vehicle, Direction, Turn, is_north_south, lemma_overlap_symmetric,
    lemma_step_movement, lemma_spawn_footprint_turn_blind, same_footprint};
use crate::traffic_light::TrafficLightSystem;

verus! {

/// A vehicle this far beyond any world boundary along its travel axis is
/// certain to be removed by the next tick: no single tick can bring it
/// back within the eviction margin.
pub const CERTAIN_EVICTION_DISTANCE: i32 = 150;

/// True while the vehicle's rectangle origin lies within the world plus
/// the eviction margin on every side.
pub open spec fn within_world_margin(v: Vehicle) -> bool {
    &&& -EVICTION_MARGIN <= v.x <= WORLD_WIDTH + EVICTION_MARGIN
    &&& -EVICTION_MARGIN <= v.y <= WORLD_HEIGHT + EVICTION_MARGIN
}

/// A vehicle the simulation keeps: well-formed and within the world
/// margin.
pub open spec fn vehicle_ok(v: Vehicle) -> bool {
    v.wf() && within_world_margin(v)
}

/// No two distinct vehicles of the sequence overlap, after shrinking each
/// rectangle by the collision margin.
pub open spec fn no_overlap(vs: Seq<Vehicle>) -> bool {
    forall|i: int, j: int| 0 <= i < vs.len() && 0 <= j < vs.len() && i != j
        ==> !(#[trigger] vs[i].overlaps_spec(vs[j]))
}

/// True when the vehicle stands beyond [`CERTAIN_EVICTION_DISTANCE`]
/// outside the world along the axis it travels on.
pub open spec fn far_beyond_on_travel_axis(v: Vehicle) -> bool {
    if is_north_south(v.direction) {
        v.y < -CERTAIN_EVICTION_DISTANCE || v.y > WORLD_HEIGHT + CERTAIN_EVICTION_DISTANCE
    } else {
        v.x < -CERTAIN_EVICTION_DISTANCE || v.x > WORLD_WIDTH + CERTAIN_EVICTION_DISTANCE
    }
}

/// Removing one vehicle from a non-overlapping population leaves it
/// non-overlapping.
proof fn lemma_no_overlap_remove(vs: Seq<Vehicle>, i: int)
    requires
        0 <= i < vs.len(),
        no_overlap(vs),
    ensures
        no_overlap(vs.remove(i)),
{
    let rest = vs.remove(i);
    assert forall|p: int, q: int| 0 <= p < rest.len() && 0 <= q < rest.len() && p != q
        implies !(#[trigger] rest[p].overlaps_spec(rest[q])) by {
        let p0 = if p < i { p } else { p + 1 };
        let q0 = if q < i { q } else { q + 1 };
        assert(rest[p] == vs[p0]);
        assert(rest[q] == vs[q0]);
    }
}

/// Inserting a vehicle that overlaps nobody into a non-overlapping
/// population leaves it non-overlapping.
proof fn lemma_no_overlap_insert(vs: Seq<Vehicle>, i: int, v: Vehicle)
    requires
        0 <= i <= vs.len(),
        no_overlap(vs),
        forall|k: int| 0 <= k < vs.len() ==> !v.overlaps_spec(#[trigger] vs[k]),
    ensures
        no_overlap(vs.insert(i, v)),
{
    let grown = vs.insert(i, v);
    assert forall|p: int, q: int| 0 <= p < grown.len() && 0 <= q < grown.len() && p != q
        implies !(#[trigger] grown[p].overlaps_spec(grown[q])) by {
        if p == i {
            let q0 = if q < i { q } else { q - 1 };
            assert(grown[q] == vs[q0]);
            assert(!v.overlaps_spec(vs[q0]));
        } else if q == i {
            let p0 = if p < i { p } else { p - 1 };
            assert(grown[p] == vs[p0]);
            assert(!v.overlaps_spec(vs[p0]));
            lemma_overlap_symmetric(vs[p0], v);
        } else {
            let p0 = if p < i { p } else { p - 1 };
            let q0 = if q < i { q } else { q - 1 };
            assert(grown[p] == vs[p0]);
            assert(grown[q] == vs[q0]);
        }
    }
}

/// Eviction is certain from far enough out: a well-formed vehicle placed
/// beyond [`CERTAIN_EVICTION_DISTANCE`] outside the world along its
/// travel axis is still beyond the eviction margin after one tick,
/// whatever its peers, the signal state and the random turn outcome — so
/// the tick that moves it also removes it from the population.
pub proof fn lemma_far_vehicle_is_evicted(
    v: Vehicle,
    peers: Seq<Vehicle>,
    skip: int,
    s: TrafficLightSystem,
    t: crate::vehicle::Turn,
)
    requires
        v.wf(),
        v.global_tick < u64::MAX,
        far_beyond_on_travel_axis(v),
    ensures
        !within_world_margin(v.step_spec(peers, skip, s, t)),
{
    lemma_step_movement(v, peers, skip, s, t);
}

/// The outcome of one vehicle's iteration in the per-tick loop: the
/// vehicle steps against the peers with turn intent `t` left by the
/// random re-roll; a step that would overlap a peer has its footprint
/// (position and extent) and stop state reverted to the pre-step
/// snapshot.
pub open spec fn loop_outcome(
    v: Vehicle,
    peers: Seq<Vehicle>,
    s: TrafficLightSystem,
    t: Turn,
) -> Vehicle {
    let w = v.step_spec(peers, peers.len() as int, s, t);
    if exists|k: int| 0 <= k < peers.len() && w.overlaps_spec(#[trigger] peers[k]) {
        Vehicle {
            x: v.x,
            y: v.y,
            width: v.width,
            height: v.height,
            stopped: v.stopped,
            stop_reason: v.stop_reason,
            ..w
        }
    } else {
        w
    }
}

/// The population the vehicle loop leaves behind, given the sequence of
/// turn intents `ts` that the random re-rolls draw, one per vehicle in
/// `todo`: each vehicle of `todo` in order steps against the already
/// advanced vehicles in `done` and the waiting rest, and is kept unless
/// it left the world margin.
pub open spec fn run_loop(
    done: Seq<Vehicle>,
    todo: Seq<Vehicle>,
    s: TrafficLightSystem,
    ts: Seq<Turn>,
) -> Seq<Vehicle>
    decreases todo.len(),
{
    if todo.len() == 0 {
        done
    } else {
        let w = loop_outcome(todo.first(), done + todo.drop_first(), s, ts.first());
        if within_world_margin(w) {
            run_loop(done.push(w), todo.drop_first(), s, ts.drop_first())
        } else {
            run_loop(done, todo.drop_first(), s, ts.drop_first())
        }
    }
}

/// True when a vehicle spawned on the given approach would, after its
/// spawn-time re-evaluation against the population, overlap some vehicle
/// already present. The reference newcomer carries a straight intent,
/// which stands for every intent: the evaluated footprint does not depend
/// on the drawn turn.
pub open spec fn spawn_blocked(
    vs: Seq<Vehicle>,
    lights: TrafficLightSystem,
    direction: Direction,
) -> bool {
    exists|k: int| 0 <= k < vs.len()
        && Vehicle::spawn_spec(direction, Turn::Straight)
            .evaluated_spec(vs, vs.len() as int, lights)
            .overlaps_spec(#[trigger] vs[k])
}

/// The whole simulation: the vehicle population and the signal
/// controller.
pub struct Simulation {
    pub vehicles: Vec<Vehicle>,
    pub lights: TrafficLightSystem,
}

impl Simulation {
    /// Internal consistency: the controller is well-formed, every vehicle
    /// is well-formed and within the world margin, and no two vehicles
    /// overlap.
    pub open spec fn wf(self) -> bool {
        &&& self.lights.wf()
        &&& forall|i: int| 0 <= i < self.vehicles@.len() ==> vehicle_ok(#[trigger] self.vehicles@[i])
        &&& no_overlap(self.vehicles@)
    }

    /// Every vehicle's tick counter has room to advance.
    pub open spec fn ticks_available(self) -> bool {
        forall|i: int| 0 <= i < self.vehicles@.len()
            ==> (#[trigger] self.vehicles@[i]).global_tick < u64::MAX
    }

    /// Creates an empty simulation with the controller in its start
    /// state.
    pub fn new() -> (s: Simulation)
        ensures
            s.wf(),
            s.vehicles@.len() == 0,
            s.lights == TrafficLightSystem::initial_spec(),
    {
        Simulation { vehicles: Vec::new(), lights: TrafficLightSystem::new() }
    }

    /// Spawns a vehicle heading in the given direction at its approach
    /// lane's spawn point, with a random turn intent, re-evaluating its
    /// stop state against the current population. The spawn is refused —
    /// and the simulation left unchanged — when the newcomer would
    /// overlap a vehicle already occupying the spawn area.
    pub fn spawn(&mut self, direction: Direction) -> (spawned: bool)
        requires
            old(self).wf(),
        ensures
            final(self).wf(),
            final(self).lights == old(self).lights,
            spawned == !spawn_blocked(old(self).vehicles@, old(self).lights, direction),
            !spawned ==> *final(self) == *old(self),
            spawned ==> final(self).vehicles@.len() == old(self).vehicles@.len() + 1
                && final(self).vehicles@.drop_last() == old(self).vehicles@
                && (final(self).vehicles@.last()
                    == Vehicle::spawn_spec(direction, final(self).vehicles@.last().turn)
                        .evaluated_spec(old(self).vehicles@, old(self).vehicles@.len() as int,
                            old(self).lights)),
    {
        let mut v = Vehicle::new(direction);
        let ghost drawn = v.turn;
        v.check_vehicles_ahead(&self.vehicles, self.vehicles.len(), &self.lights);

        let ghost reference = Vehicle::spawn_spec(direction, Turn::Straight)
            .evaluated_spec(old(self).vehicles@, old(self).vehicles@.len() as int,
                old(self).lights);
        proof {
            assert(within_world_margin(v));
            lemma_spawn_footprint_turn_blind(direction, drawn, Turn::Straight,
                old(self).vehicles@, old(self).vehicles@.len() as int, old(self).lights);
            assert(same_footprint(v, reference));
        }

        let mut i: usize = 0;
        while i < self.vehicles.len()
            invariant
                self.wf(),
                v.wf(),
                *self == *old(self),
                same_footprint(v, reference),
                reference == Vehicle::spawn_spec(direction, Turn::Straight)
                    .evaluated_spec(old(self).vehicles@, old(self).vehicles@.len() as int,
                        old(self).lights),
                i <= self.vehicles@.len(),
                forall|k: int| 0 <= k < i ==> !v.overlaps_spec(#[trigger] self.vehicles@[k]),
            decreases self.vehicles@.len() - i,
        {
            if v.bounding_box_collision(&self.vehicles[i]) {
                proof {
                    assert(reference.overlaps_spec(old(self).vehicles@[i as int]));
                    assert(spawn_blocked(old(self).vehicles@, old(self).lights, direction));
                }
                return false;
            }
            i = i + 1;
        }

        proof {
            assert forall|k: int| 0 <= k < self.vehicles@.len()
                implies !reference.overlaps_spec(#[trigger] self.vehicles@[k]) by {
                assert(!v.overlaps_spec(self.vehicles@[k]));
            }
        }

        proof {
            lemma_no_overlap_insert(self.vehicles@, self.vehicles@.len() as int, v);
            assert(self.vehicles@.insert(self.vehicles@.len() as int, v)
                =~= self.vehicles@.push(v));
            assert(self.vehicles@.push(v).drop_last() =~= self.vehicles@);
        }
        self.vehicles.push(v);
        true
    }

    /// Runs one simulation tick at clock time `now`: advances the signal
    /// phase, samples congestion and adapts the cycle length, then
    /// re-evaluates and advances every vehicle against its peers —
    /// reverting any move that would overlap another vehicle — and
    /// removes vehicles beyond the world margin.
    ///
    /// Vehicles are processed in list order, and each one sees every
    /// other vehicle's current state: the ones before it as already
    /// advanced this tick, the ones after it as of tick start. The order
    /// is deterministic; only the turn re-rolls inside each vehicle's own
    /// step draw randomness.
    ///
    /// A population free of overlaps stays free of overlaps, and every
    /// vehicle that remains lies within the world margin.
    #[verifier::rlimit(100)]
    pub fn tick(&mut self, now: u64)
        requires
            old(self).wf(),
            old(self).lights.last_change <= now,
            old(self).ticks_available(),
            old(self).vehicles@.len() <= u32::MAX,
        ensures
            final(self).wf(),
            no_overlap(final(self).vehicles@),
            forall|i: int| 0 <= i < final(self).vehicles@.len()
                ==> within_world_margin(#[trigger] final(self).vehicles@[i]),
            final(self).lights == old(self).lights.phase_spec(now)
                .sampled_spec(old(self).vehicles@).adapt_spec(),
            final(self).lights.last_change <= now,
            exists|ts: Seq<Turn>| final(self).vehicles@
                == run_loop(Seq::empty(), old(self).vehicles@, final(self).lights, ts)
                && ts.len() == old(self).vehicles@.len(),
    {
        self.lights.update(now);
        self.lights.update_congestion(&self.vehicles);
        proof {
            crate::traffic_light::lemma_operations_preserve_wf(
                old(self).lights, old(self).vehicles@, now);
            crate::traffic_light::lemma_operations_preserve_wf(
                old(self).lights.phase_spec(now), old(self).vehicles@, now);
        }
        let ghost lights_now = self.lights;
        let ghost pre = self.vehicles@;
        let ghost mut turns: Seq<Turn> = Seq::empty();
        proof {
            assert(pre.take(0int) =~= Seq::<Vehicle>::empty());
            assert(pre.skip(0int) =~= pre);
        }

        let mut i: usize = 0;
        while i < self.vehicles.len()
            invariant
                self.lights == lights_now,
                self.lights.wf(),
                self.lights.last_change <= now,
                i <= self.vehicles@.len(),
                forall|k: int| 0 <= k < self.vehicles@.len()
                    ==> vehicle_ok(#[trigger] self.vehicles@[k]),
                no_overlap(self.vehicles@),
                forall|k: int| i <= k < self.vehicles@.len()
                    ==> (#[trigger] self.vehicles@[k]).global_tick < u64::MAX,
                turns.len() + self.vehicles@.len() == pre.len() + i,
                forall|ts2: Seq<Turn>|
                    #[trigger] run_loop(self.vehicles@.take(i as int),
                        self.vehicles@.skip(i as int), lights_now, ts2)
                    == run_loop(Seq::empty(), pre, lights_now, turns + ts2),
            decreases self.vehicles@.len() - i,
        {
            let ghost before = self.vehicles@;
            let ghost done = before.take(i as int);
            let ghost todo = before.skip(i as int);
            let mut v = self.vehicles.remove(i);
            let ghost rest = self.vehicles@;
            let ghost prev = v;
            proof {
                lemma_no_overlap_remove(before, i as int);
                assert forall|k: int| 0 <= k < rest.len()
                    implies vehicle_ok(#[trigger] rest[k]) by {
                    let k0 = if k < i { k } else { k + 1 };
                    assert(rest[k] == before[k0]);
                }
                assert forall|k: int| 0 <= k < rest.len()
                    implies !prev.overlaps_spec(#[trigger] rest[k]) by {
                    let k0 = if k < i { k } else { k + 1 };
                    assert(rest[k] == before[k0]);
                    assert(before[i as int] == prev);
                }
            }

            let prev_x = v.x;
            let prev_y = v.y;
            let prev_width = v.width;
            let prev_height = v.height;
            let prev_stopped = v.stopped;
            let prev_reason = v.stop_reason;

            v.update(&self.vehicles, self.vehicles.len(), &self.lights);
            let ghost stepped = v;
            let ghost tw = stepped.turn;
            proof {
                assert(rest =~= done + todo.drop_first());
                assert(todo.first() == prev);
                assert(stepped == prev.step_spec(rest, rest.len() as int, lights_now, tw));
            }

            let mut overlap = false;
            let mut j: usize = 0;
            while j < self.vehicles.len()
                invariant
                    v.wf(),
                    j <= self.vehicles@.len(),
                    forall|k: int| 0 <= k < self.vehicles@.len()
                        ==> vehicle_ok(#[trigger] self.vehicles@[k]),
                    overlap == exists|k: int| 0 <= k < j
                        && v.overlaps_spec(#[trigger] self.vehicles@[k]),
                decreases self.vehicles@.len() - j,
            {
                if v.bounding_box_collision(&self.vehicles[j]) {
                    overlap = true;
                }
                j = j + 1;
            }

            if overlap {
                v.x = prev_x;
                v.y = prev_y;
                v.width = prev_width;
                v.height = prev_height;
                v.stopped = prev_stopped;
                v.stop_reason = prev_reason;
                proof {
                    assert forall|k: int| 0 <= k < rest.len()
                        implies !v.overlaps_spec(#[trigger] rest[k]) by {
                        assert(!prev.overlaps_spec(rest[k]));
                    }
                }
            }

            proof {
                assert(v == loop_outcome(prev, rest, lights_now, tw));
            }

            if v.x < -EVICTION_MARGIN || v.x > WORLD_WIDTH + EVICTION_MARGIN
                || v.y < -EVICTION_MARGIN || v.y > WORLD_HEIGHT + EVICTION_MARGIN {
                proof {
                    assert(rest.take(i as int) =~= done);
                    assert(rest.skip(i as int) =~= todo.drop_first());
                    assert forall|ts2: Seq<Turn>|
                        #[trigger] run_loop(done, todo.drop_first(), lights_now, ts2)
                        == run_loop(Seq::empty(), pre, lights_now, turns.push(tw) + ts2) by {
                        let drawn = seq![tw] + ts2;
                        assert(drawn.first() == tw);
                        assert(drawn.drop_first() =~= ts2);
                        assert(run_loop(done, todo, lights_now, drawn)
                            == run_loop(done, todo.drop_first(), lights_now, ts2));
                        assert(turns + drawn =~= turns.push(tw) + ts2);
                    }
                    turns = turns.push(tw);
                }
                // Left the world: stays removed.
            } else {
                proof {
                    assert(vehicle_ok(v));
                    lemma_no_overlap_insert(rest, i as int, v);
                    assert forall|k: int| 0 <= k < rest.insert(i as int, v).len()
                        implies vehicle_ok(#[trigger] rest.insert(i as int, v)[k]) by {
                        if k != i {
                            let k0 = if k < i { k } else { k - 1 };
                            assert(rest.insert(i as int, v)[k] == rest[k0]);
                        }
                    }
                }
                proof {
                    assert(rest.insert(i as int, v).take(i + 1) =~= done.push(v));
                    assert(rest.insert(i as int, v).skip(i + 1) =~= todo.drop_first());
                    assert forall|ts2: Seq<Turn>|
                        #[trigger] run_loop(done.push(v), todo.drop_first(), lights_now, ts2)
                        == run_loop(Seq::empty(), pre, lights_now, turns.push(tw) + ts2) by {
                        let drawn = seq![tw] + ts2;
                        assert(drawn.first() == tw);
                        assert(drawn.drop_first() =~= ts2);
                        assert(run_loop(done, todo, lights_now, drawn)
                            == run_loop(done.push(v), todo.drop_first(), lights_now, ts2));
                        assert(turns + drawn =~= turns.push(tw) + ts2);
                    }
                    turns = turns.push(tw);
                }
                self.vehicles.insert(i, v);
                i = i + 1;
            }
        }

        proof {
            assert(self.vehicles@.take(i as int) =~= self.vehicles@);
            assert(self.vehicles@.skip(i as int) =~= Seq::<Vehicle>::empty());
            assert(run_loop(self.vehicles@, Seq::<Vehicle>::empty(), lights_now,
                Seq::<Turn>::empty()) == self.vehicles@);
            assert(turns + Seq::<Turn>::empty() =~= turns);
            assert(self.vehicles@ == run_loop(Seq::empty(), pre, lights_now, turns));
        }
    }
}

} // verus!
