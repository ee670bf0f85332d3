use intersection_sim::traffic_light::{TrafficLightSystem, TrafficLightState};
use intersection_sim::vehicle::{Vehicle, Direction, Turn, StopReason};

fn all_green_controller() -> TrafficLightSystem {
    TrafficLightSystem {
        north_state: TrafficLightState::Green,
        south_state: TrafficLightState::Green,
        east_state: TrafficLightState::Green,
        west_state: TrafficLightState::Green,
        last_change: 0,
        change_interval: 1000000,
        min_interval: 3,
        max_interval: 10,
        north_south_congestion: 0,
        east_west_congestion: 0,
    }
}

/// A vehicle that never turns and never re-rolls its intent, for
/// deterministic scenarios.
fn committed(direction: Direction) -> Vehicle {
    let mut v = Vehicle::new_with_turn(direction, Turn::Straight);
    v.has_turned = true;
    v.turn_executed = true;
    v
}

#[test]
fn spawn_points_per_direction() {
    let n = Vehicle::new_with_turn(Direction::North, Turn::Left);
    assert_eq!((n.x, n.y, n.width, n.height), (378, 650, 20, 40));
    assert_eq!(n.target_x, 378);
    let s = Vehicle::new_with_turn(Direction::South, Turn::Left);
    assert_eq!((s.x, s.y, s.width, s.height), (402, -50, 20, 40));
    let e = Vehicle::new_with_turn(Direction::East, Turn::Left);
    assert_eq!((e.x, e.y, e.width, e.height), (-50, 302, 40, 20));
    assert_eq!(e.target_y, 302);
    let w = Vehicle::new_with_turn(Direction::West, Turn::Left);
    assert_eq!((w.x, w.y, w.width, w.height), (850, 278, 40, 20));
    assert!(!n.stopped);
    assert_eq!(n.stop_reason, StopReason::NoStop);
    assert_eq!(n.max_speed, 3);
    assert_eq!(n.current_speed, 1);
    assert_eq!(n.arrival_time, None);
}

#[test]
fn display_color_encodes_turn_intent() {
    let l = Vehicle::new_with_turn(Direction::North, Turn::Left);
    let r = Vehicle::new_with_turn(Direction::North, Turn::Right);
    let s = Vehicle::new_with_turn(Direction::North, Turn::Straight);
    assert_eq!(l.display_color(), (255, 0, 0));
    assert_eq!(r.display_color(), (0, 255, 0));
    assert_eq!(s.display_color(), (0, 0, 255));
}

#[test]
fn random_spawn_always_yields_a_valid_intent() {
    for _ in 0..50 {
        let v = Vehicle::new(Direction::West);
        assert!(v.turn == Turn::Left || v.turn == Turn::Right || v.turn == Turn::Straight);
        assert_eq!((v.x, v.y), (850, 278));
    }
}

#[test]
fn time_to_intersection_exact_values() {
    let v = Vehicle::new_with_turn(Direction::North, Turn::Straight);
    // 350 units before the center at one unit per tick.
    assert_eq!(v.time_to_intersection(), 350);
    let mut fast = Vehicle::new_with_turn(Direction::North, Turn::Straight);
    fast.current_speed = 3;
    assert_eq!(fast.time_to_intersection(), 116);
    let mut still = Vehicle::new_with_turn(Direction::North, Turn::Straight);
    still.current_speed = 0;
    assert_eq!(still.time_to_intersection(), i32::MAX);
}

#[test]
fn bounding_boxes_overlap_only_past_the_margin() {
    let a = committed(Direction::North);
    // Directly adjacent: not an overlap.
    let mut b = committed(Direction::North);
    b.x = a.x + a.width;
    b.y = a.y;
    assert!(!a.bounding_box_collision(&b));
    // Overlapping by more than the margin on both axes.
    let mut c = committed(Direction::North);
    c.x = a.x + a.width - 3;
    c.y = a.y;
    assert!(a.bounding_box_collision(&c));
    assert!(c.bounding_box_collision(&a));
}

#[test]
fn red_light_stops_vehicle_inside_window() {
    let controller = TrafficLightSystem::new();
    let mut v = committed(Direction::North);
    v.y = 360; // ten units before the stop line at 350
    v.check_traffic_light(&controller);
    assert!(v.stopped);
    assert_eq!(v.stop_reason, StopReason::TrafficLight);
}

#[test]
fn red_light_ignores_vehicle_outside_window() {
    let controller = TrafficLightSystem::new();
    let mut far = committed(Direction::North);
    far.y = 381; // thirty-one units before the line
    far.check_traffic_light(&controller);
    assert!(!far.stopped);
    let mut past = committed(Direction::North);
    past.y = 350; // already at the line
    past.check_traffic_light(&controller);
    assert!(!past.stopped);
}

#[test]
fn green_light_releases_previous_light_stop() {
    let mut controller = TrafficLightSystem::new();
    let mut v = committed(Direction::North);
    v.y = 360;
    v.check_traffic_light(&controller);
    assert!(v.stopped);
    controller.north_state = TrafficLightState::Green;
    controller.south_state = TrafficLightState::Green;
    v.check_traffic_light(&controller);
    assert!(!v.stopped);
    assert_eq!(v.stop_reason, StopReason::NoStop);
}

#[test]
fn follower_stops_behind_stopped_leader() {
    let mut leader = committed(Direction::North);
    leader.y = 560;
    leader.stopped = true;
    leader.stop_reason = StopReason::VehicleAhead;
    let mut follower = committed(Direction::North);
    follower.y = 630; // gap of 630 - 560 - 40 = 30, within following distance
    follower.check_same_direction_vehicles(&vec![leader], 1);
    assert!(follower.stopped);
    assert_eq!(follower.stop_reason, StopReason::VehicleAhead);
    assert_eq!(follower.current_speed, 0);
}

#[test]
fn follower_matches_speed_behind_moving_leader() {
    let mut leader = committed(Direction::North);
    leader.y = 560;
    let mut follower = committed(Direction::North);
    follower.y = 630; // gap 30: proportional speed clamps at max speed 3
    follower.check_same_direction_vehicles(&vec![leader], 1);
    assert!(!follower.stopped);
    assert_eq!(follower.current_speed, 3);
}

#[test]
fn critically_close_follower_nudges_backward() {
    let mut leader = committed(Direction::North);
    leader.y = 560;
    let mut follower = committed(Direction::North);
    follower.y = 605; // gap 5: below the hard and the nudge thresholds
    let y_before = follower.y;
    follower.check_same_direction_vehicles(&vec![leader], 1);
    assert!(follower.stopped);
    assert_eq!(follower.stop_reason, StopReason::VehicleAhead);
    assert_eq!(follower.y, y_before + 1);
}

#[test]
fn clear_road_accelerates_toward_max_speed() {
    let mut v = committed(Direction::North);
    v.check_same_direction_vehicles(&Vec::new(), 0);
    assert_eq!(v.current_speed, 2);
    v.check_same_direction_vehicles(&Vec::new(), 0);
    assert_eq!(v.current_speed, 3);
    v.check_same_direction_vehicles(&Vec::new(), 0);
    assert_eq!(v.current_speed, 3);
}

#[test]
fn other_lane_vehicle_is_ignored() {
    let mut other_lane = committed(Direction::North);
    other_lane.y = 560;
    other_lane.x = 378 + 30; // more than half a lane away
    other_lane.stopped = true;
    other_lane.stop_reason = StopReason::VehicleAhead;
    let mut v = committed(Direction::North);
    v.y = 630;
    v.check_same_direction_vehicles(&vec![other_lane], 1);
    assert!(!v.stopped);
    assert_eq!(v.current_speed, 2);
}

#[test]
fn later_arrival_yields_intersection_conflict() {
    // An east-bound and a north-bound vehicle approach on a collision
    // course; the north-bound one arrived later and must be the one that
    // stops with the intersection-conflict reason.
    let mut east = committed(Direction::East);
    east.x = 300;
    east.arrival_time = Some(1);
    let mut north = committed(Direction::North);
    north.y = 400;
    north.arrival_time = Some(5);
    // Equal speeds and symmetric distances: estimated arrivals coincide.
    assert!(north.will_collide(&east));

    let mut later = north.clone();
    later.check_intersection_conflicts(&vec![east.clone()], 1);
    assert!(later.stopped);
    assert_eq!(later.stop_reason, StopReason::IntersectionConflict);
    assert_eq!(later.current_speed, 0);

    let mut earlier = east.clone();
    earlier.check_intersection_conflicts(&vec![north.clone()], 1);
    assert!(!earlier.stopped);
    assert_eq!(earlier.stop_reason, StopReason::NoStop);
}

#[test]
fn arrival_tick_is_recorded_on_entering_the_approach_zone() {
    let mut v = committed(Direction::North);
    v.y = 400;
    v.global_tick = 7;
    assert_eq!(v.arrival_time, None);
    v.check_intersection_conflicts(&Vec::new(), 0);
    assert_eq!(v.arrival_time, Some(7));
    // Outside the approach zone the record is forgotten.
    v.y = 650;
    v.check_intersection_conflicts(&Vec::new(), 0);
    assert_eq!(v.arrival_time, None);
}

#[test]
fn cross_traffic_yield_table() {
    let north = committed(Direction::North);
    let east = committed(Direction::East);
    let south = committed(Direction::South);
    let west = committed(Direction::West);
    assert!(north.should_yield_to(&east));
    assert!(east.should_yield_to(&south));
    assert!(south.should_yield_to(&west));
    assert!(west.should_yield_to(&north));
    assert!(!north.should_yield_to(&west));
    assert!(!east.should_yield_to(&north));
    assert!(!south.should_yield_to(&east));
    assert!(!west.should_yield_to(&south));
}

#[test]
fn opposing_traffic_yield_table() {
    let mut left = committed(Direction::North);
    left.turn = Turn::Left;
    let mut straight = committed(Direction::South);
    straight.turn = Turn::Straight;
    let mut right = committed(Direction::South);
    right.turn = Turn::Right;
    assert!(left.should_yield_to(&straight));
    assert!(left.should_yield_to(&right));
    let mut straight_n = committed(Direction::North);
    straight_n.turn = Turn::Straight;
    assert!(straight_n.should_yield_to(&right));
    let mut right_n = committed(Direction::North);
    right_n.turn = Turn::Right;
    assert!(!right_n.should_yield_to(&straight));
    assert!(!right_n.should_yield_to(&right));
}

#[test]
fn committed_vehicle_inside_intersection_conflicts_with_nobody() {
    let mut inside = committed(Direction::North);
    inside.y = 300;
    inside.current_speed = 3;
    let mut other = committed(Direction::East);
    other.x = 300;
    assert!(!inside.will_collide(&other));
}

#[test]
fn left_turn_across_opposing_straight_conflicts() {
    let mut up = Vehicle::new_with_turn(Direction::North, Turn::Left);
    up.y = 400;
    let mut down = Vehicle::new_with_turn(Direction::South, Turn::Straight);
    down.y = 160; // 140 before the center at speed 1, close to up's 100
    down.current_speed = 2; // estimated arrival 70: within the 20-tick window? no
    assert!(!up.will_collide(&down));
    down.y = 200; // estimated arrival (300-200)/2 = 50... still outside
    assert!(!up.will_collide(&down));
    down.y = 216;
    down.current_speed = 1; // arrival 84, |100 - 84| = 16 < 20
    assert!(up.will_collide(&down));
    // A right-turning opposer never crosses a right turner's path.
    let mut right = Vehicle::new_with_turn(Direction::North, Turn::Right);
    right.y = 400;
    let mut down2 = Vehicle::new_with_turn(Direction::South, Turn::Right);
    down2.y = 216;
    assert!(!right.will_collide(&down2));
}

#[test]
fn north_left_turn_rewrites_heading_and_extent() {
    let mut v = Vehicle::new_with_turn(Direction::North, Turn::Left);
    v.y = 300;
    v.handle_intersection_turn();
    assert_eq!(v.direction, Direction::West);
    assert_eq!((v.width, v.height), (40, 20));
    assert_eq!(v.x, 400 - 40);
    assert_eq!(v.y, 275);
    assert_eq!(v.target_y, 278);
    assert!(v.has_turned);
    assert!(v.turn_executed);
    assert_eq!(v.arrival_time, None);
}

#[test]
fn straight_through_vehicle_only_reaffirms_its_lane() {
    let mut v = Vehicle::new_with_turn(Direction::North, Turn::Straight);
    v.y = 300;
    v.x = 380;
    v.target_x = 0;
    v.handle_intersection_turn();
    assert_eq!(v.direction, Direction::North);
    assert_eq!((v.width, v.height), (20, 40));
    assert_eq!(v.target_x, 378);
    assert!(v.has_turned);
}

#[test]
fn turn_outside_zone_or_while_stopped_does_nothing() {
    let mut v = Vehicle::new_with_turn(Direction::North, Turn::Left);
    v.y = 310; // six units from the center: outside the zone
    v.handle_intersection_turn();
    assert_eq!(v.direction, Direction::North);
    assert!(!v.has_turned);
    let mut held = Vehicle::new_with_turn(Direction::North, Turn::Left);
    held.y = 300;
    held.stopped = true;
    held.stop_reason = StopReason::IntersectionConflict;
    held.handle_intersection_turn();
    assert_eq!(held.direction, Direction::North);
    assert!(!held.has_turned);
}

#[test]
fn lane_adjustment_converges_onto_the_target() {
    let mut v = committed(Direction::North);
    v.y = 500;
    v.x = 381;
    v.target_x = 378;
    v.adjust_lane_position();
    assert_eq!(v.x, 380);
    v.adjust_lane_position();
    assert_eq!(v.x, 379);
    v.adjust_lane_position();
    assert_eq!(v.x, 378);
    v.adjust_lane_position();
    assert_eq!(v.x, 378);
}

#[test]
fn turn_intent_never_changes_away_from_the_approach() {
    let mut v = Vehicle::new_with_turn(Direction::North, Turn::Straight);
    for _ in 0..100 {
        v.randomize_turn_if_needed(); // at the spawn point: not approaching
        assert_eq!(v.turn, Turn::Straight);
    }
    let mut held = Vehicle::new_with_turn(Direction::North, Turn::Straight);
    held.y = 400;
    held.stopped = true;
    held.stop_reason = StopReason::TrafficLight;
    for _ in 0..100 {
        held.randomize_turn_if_needed(); // approaching but stopped
        assert_eq!(held.turn, Turn::Straight);
    }
}

#[test]
fn update_accelerates_and_advances_on_a_clear_road() {
    let lights = all_green_controller();
    let mut v = committed(Direction::North);
    let peers: Vec<Vehicle> = Vec::new();
    v.update(&peers, 0, &lights);
    assert_eq!(v.current_speed, 2);
    assert_eq!(v.y, 648);
    v.update(&peers, 0, &lights);
    assert_eq!(v.current_speed, 3);
    assert_eq!(v.y, 645);
    v.update(&peers, 0, &lights);
    assert_eq!(v.y, 642);
    assert_eq!(v.global_tick, 3);
}

#[test]
fn update_halts_at_a_red_light_and_resumes_on_green() {
    let mut lights = TrafficLightSystem::new(); // north-south red
    let mut v = committed(Direction::North);
    v.y = 381;
    let peers: Vec<Vehicle> = Vec::new();
    v.update(&peers, 0, &lights); // moves to 379, inside the stop window
    v.update(&peers, 0, &lights);
    assert!(v.stopped);
    assert_eq!(v.stop_reason, StopReason::TrafficLight);
    let held_at = v.y;
    v.update(&peers, 0, &lights);
    assert_eq!(v.y, held_at, "a vehicle held at a red light stands still");
    lights.north_state = TrafficLightState::Green;
    lights.south_state = TrafficLightState::Green;
    lights.east_state = TrafficLightState::Red;
    lights.west_state = TrafficLightState::Red;
    v.update(&peers, 0, &lights);
    assert!(!v.stopped);
    assert_eq!(v.stop_reason, StopReason::NoStop);
    assert!(v.y < held_at);
}

#[test]
fn stop_reason_is_none_whenever_moving() {
    // Drive a follower toward a stopped leader and across a red light;
    // at every tick an unstopped vehicle carries no stop reason.
    let lights = TrafficLightSystem::new();
    let mut leader = committed(Direction::North);
    leader.y = 500;
    let mut follower = committed(Direction::North);
    for tick in 0..200u64 {
        let peers = vec![follower.clone()];
        leader.update(&peers, 0, &lights);
        let peers = vec![leader.clone()];
        follower.update(&peers, 0, &lights);
        for v in [&leader, &follower] {
            if !v.stopped {
                assert_eq!(v.stop_reason, StopReason::NoStop, "tick {}", tick);
            }
        }
    }
}

#[test]
fn random_turn_draws_are_not_constant() {
    // Over 200 spawns a single-valued turn draw is (beyond plausibility)
    // impossible; this guards the randomness source against degenerating
    // into a constant.
    let mut seen_left = false;
    let mut seen_right = false;
    let mut seen_straight = false;
    for _ in 0..200 {
        match Vehicle::new(Direction::North).turn {
            Turn::Left => seen_left = true,
            Turn::Right => seen_right = true,
            Turn::Straight => seen_straight = true,
        }
    }
    assert!(
        (seen_left as u8 + seen_right as u8 + seen_straight as u8) >= 2,
        "turn draws must not be constant"
    );
}

#[test]
fn approach_zone_boundaries() {
    let mut v = committed(Direction::North);
    v.y = 430;
    assert!(v.approaching_intersection());
    v.y = 431;
    assert!(!v.approaching_intersection());
    v.y = 351;
    assert!(v.approaching_intersection());
    v.y = 350;
    assert!(!v.approaching_intersection(), "past the stop line is no longer approaching");
    let mut e = committed(Direction::East);
    e.x = 270;
    assert!(e.approaching_intersection());
    e.x = 269;
    assert!(!e.approaching_intersection());
    e.x = 349;
    assert!(e.approaching_intersection());
    e.x = 350;
    assert!(!e.approaching_intersection());
}

#[test]
fn light_stop_gates_the_other_checks() {
    // With a red light demanding a halt, neither car-following nor
    // arbitration runs: the reason stays the traffic light even with a
    // stopped vehicle right ahead.
    let controller = TrafficLightSystem::new();
    let mut leader = committed(Direction::North);
    leader.y = 330;
    leader.stopped = true;
    leader.stop_reason = StopReason::VehicleAhead;
    let mut v = committed(Direction::North);
    v.y = 375; // gap 5 to the leader, and 25 before the red stop line
    v.check_traffic_and_vehicles(&vec![leader.clone()], 1, &controller);
    assert!(v.stopped);
    assert_eq!(v.stop_reason, StopReason::TrafficLight);
    assert_eq!(v.y, 375, "no follow-up check may nudge a light-held vehicle");
}

#[test]
fn perpendicular_collision_window_boundary() {
    // Both at speed one, the window is 15 + (1 + 1) / 2 = 16 estimated
    // ticks: a difference of 15 conflicts, a difference of 16 does not.
    let mut north = committed(Direction::North);
    north.y = 400; // 100 ticks from the center at speed 1
    let mut east = committed(Direction::East);
    east.x = 285; // 115 ticks from the center
    assert!(north.will_collide(&east));
    east.x = 284; // 116 ticks from the center
    assert!(!north.will_collide(&east));
}

#[test]
fn turn_index_mapping() {
    assert_eq!(Turn::of_index(0), Turn::Left);
    assert_eq!(Turn::of_index(1), Turn::Right);
    assert_eq!(Turn::of_index(2), Turn::Straight);
    assert_eq!(Turn::of_index(9), Turn::Straight);
}
