use intersection_sim::traffic_light::{TrafficLightSystem, TrafficLightState};
use intersection_sim::vehicle::{Vehicle, Direction, Turn, StopReason};

fn light_stopped_vehicle(direction: Direction) -> Vehicle {
    let mut v = Vehicle::new_with_turn(direction, Turn::Straight);
    v.stopped = true;
    v.stop_reason = StopReason::TrafficLight;
    v
}

#[test]
fn initial_state_is_north_south_red_east_west_green() {
    let s = TrafficLightSystem::new();
    assert_eq!(s.north_state, TrafficLightState::Red);
    assert_eq!(s.south_state, TrafficLightState::Red);
    assert_eq!(s.east_state, TrafficLightState::Green);
    assert_eq!(s.west_state, TrafficLightState::Green);
    assert_eq!(s.change_interval, 5);
    assert_eq!(s.min_interval, 3);
    assert_eq!(s.max_interval, 10);
    assert_eq!(s.north_south_congestion, 0);
    assert_eq!(s.east_west_congestion, 0);
}

#[test]
fn exactly_one_axis_green_across_updates() {
    let mut s = TrafficLightSystem::new();
    for now in 0..50u64 {
        s.update(now);
        let ns_green = s.north_state == TrafficLightState::Green;
        let ew_green = s.east_state == TrafficLightState::Green;
        assert!(ns_green != ew_green, "exactly one axis must be green");
        assert_eq!(s.north_state, s.south_state);
        assert_eq!(s.east_state, s.west_state);
    }
}

#[test]
fn phase_flips_only_after_interval() {
    let mut s = TrafficLightSystem::new();
    s.update(4);
    assert_eq!(s.north_state, TrafficLightState::Red);
    assert_eq!(s.last_change, 0);
    s.update(5);
    assert_eq!(s.north_state, TrafficLightState::Green);
    assert_eq!(s.east_state, TrafficLightState::Red);
    assert_eq!(s.last_change, 5);
}

#[test]
fn congested_red_axis_forces_minimum_interval() {
    // North-south is red at start; four vehicles held at its light reach
    // the congestion threshold while the green axis is clear.
    let mut s = TrafficLightSystem::new();
    let vehicles = vec![
        light_stopped_vehicle(Direction::North),
        light_stopped_vehicle(Direction::North),
        light_stopped_vehicle(Direction::South),
        light_stopped_vehicle(Direction::North),
    ];
    s.update_congestion(&vehicles);
    assert_eq!(s.north_south_congestion, 4);
    assert_eq!(s.east_west_congestion, 0);
    assert_eq!(s.change_interval, s.min_interval);
}

#[test]
fn both_axes_congested_keeps_default_interval() {
    let mut s = TrafficLightSystem::new();
    let mut vehicles = Vec::new();
    for _ in 0..4 {
        vehicles.push(light_stopped_vehicle(Direction::North));
        vehicles.push(light_stopped_vehicle(Direction::East));
    }
    s.update_congestion(&vehicles);
    assert_eq!(s.north_south_congestion, 4);
    assert_eq!(s.east_west_congestion, 4);
    assert_eq!(s.change_interval, 5);
}

#[test]
fn light_traffic_stretches_interval_to_maximum() {
    let mut s = TrafficLightSystem::new();
    let vehicles = vec![light_stopped_vehicle(Direction::North)];
    s.update_congestion(&vehicles);
    assert_eq!(s.north_south_congestion, 1);
    assert_eq!(s.east_west_congestion, 0);
    assert_eq!(s.change_interval, s.max_interval);
}

#[test]
fn uncongested_red_axis_keeps_default_interval() {
    let mut s = TrafficLightSystem::new();
    // Two on the red axis and two on the green axis: no rule fires but the
    // default.
    let vehicles = vec![
        light_stopped_vehicle(Direction::North),
        light_stopped_vehicle(Direction::South),
        light_stopped_vehicle(Direction::East),
        light_stopped_vehicle(Direction::West),
    ];
    s.update_congestion(&vehicles);
    assert_eq!(s.north_south_congestion, 2);
    assert_eq!(s.east_west_congestion, 2);
    assert_eq!(s.change_interval, 5);
}

#[test]
fn moving_vehicles_do_not_count_as_congestion() {
    let mut s = TrafficLightSystem::new();
    let mut stopped_other_reason = Vehicle::new_with_turn(Direction::North, Turn::Straight);
    stopped_other_reason.stopped = true;
    stopped_other_reason.stop_reason = StopReason::VehicleAhead;
    let moving = Vehicle::new_with_turn(Direction::North, Turn::Straight);
    let vehicles = vec![stopped_other_reason, moving];
    s.update_congestion(&vehicles);
    assert_eq!(s.north_south_congestion, 0);
    assert_eq!(s.east_west_congestion, 0);
}

#[test]
fn light_for_reports_each_direction() {
    let s = TrafficLightSystem::new();
    assert_eq!(s.light_for(Direction::North), TrafficLightState::Red);
    assert_eq!(s.light_for(Direction::South), TrafficLightState::Red);
    assert_eq!(s.light_for(Direction::East), TrafficLightState::Green);
    assert_eq!(s.light_for(Direction::West), TrafficLightState::Green);
}
