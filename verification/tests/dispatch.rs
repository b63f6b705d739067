use h3ist::algorithms::{OptimizedScan, SchedulingAlgorithm};
use h3ist::config::SystemConfig;
use h3ist::elevator::Elevator;
use h3ist::scheduler::{commit, cost, select_car, Scheduler};
use h3ist::{Direction, DoorState, LiftError, Request, SCALE};

fn car(id: usize, floor: i64, num_floors: u32) -> Elevator {
    Elevator {
        id,
        current_floor: floor * SCALE,
        target_floor: None,
        direction: Direction::Idle,
        passengers: Vec::new(),
        speed: 0,
        acceleration: 2500,
        load: 0,
        max_load: 800,
        door_state: DoorState::Closed,
        num_floors,
    }
}

fn req(from: u32, to: u32) -> Request {
    Request { from_floor: from, to_floor: to, timestamp: 0, passenger_count: 1 }
}

#[test]
fn request_direction_is_derived() {
    assert!(matches!(req(2, 5).direction(), Direction::Up));
    assert!(matches!(req(5, 2).direction(), Direction::Down));
}

#[test]
fn request_validation_rejects_bad_floors() {
    let config = SystemConfig::new(2, 10, 2500, 2_000_000, 800).unwrap();
    assert_eq!(Request::new(0, 5, 0, 1, &config), Err(LiftError::InvalidFloor));
    assert_eq!(Request::new(5, 11, 0, 1, &config), Err(LiftError::InvalidFloor));
    assert_eq!(Request::new(4, 4, 0, 1, &config), Err(LiftError::InvalidFloor));
    assert_eq!(Request::new(11, 0, 0, 1, &config), Err(LiftError::InvalidFloor));
}

#[test]
fn request_validation_rejects_bad_passenger_counts() {
    let config = SystemConfig::new(2, 10, 2500, 2_000_000, 3).unwrap();
    assert_eq!(Request::new(2, 5, 0, 0, &config), Err(LiftError::InvalidPassengerCount));
    assert_eq!(Request::new(2, 5, 0, 4, &config), Err(LiftError::InvalidPassengerCount));
    let ok = Request::new(2, 5, 77, 3, &config).unwrap();
    assert_eq!(ok.from_floor, 2);
    assert_eq!(ok.to_floor, 5);
    assert_eq!(ok.timestamp, 77);
    assert_eq!(ok.passenger_count, 3);
}

#[test]
fn config_validation() {
    assert!(SystemConfig::new(0, 10, 2500, 2_000_000, 800).is_none());
    assert!(SystemConfig::new(4, 1, 2500, 2_000_000, 800).is_none());
    assert!(SystemConfig::new(4, 10, 0, 2_000_000, 800).is_none());
    assert!(SystemConfig::new(4, 10, 2500, 0, 800).is_none());
    assert!(SystemConfig::new(4, 10, 2500, 2_000_000, 0).is_none());
    let c = SystemConfig::new(4, 32, 2500, 2_000_000, 800).unwrap();
    assert_eq!(c.num_elevators, 4);
    assert_eq!(c.num_floors, 32);
    assert_eq!(c.acceleration_rate, 2500);
    assert_eq!(c.max_speed, 2_000_000);
    assert_eq!(c.max_load, 800);
}

#[test]
fn idle_cost_is_distance_to_pickup() {
    let e = car(0, 1, 10);
    assert_eq!(cost(&e, &req(5, 8)), 4 * SCALE);
    let far = car(1, 10, 10);
    assert_eq!(cost(&far, &req(5, 8)), 5 * SCALE);
}

#[test]
fn idle_cost_is_strictly_monotonic_in_distance() {
    let mut previous: i64 = -1;
    for floor in 1..=10i64 {
        let e = car(0, floor, 20);
        let c = cost(&e, &req(11, 12));
        assert!(c > 0);
        if previous >= 0 {
            assert!(c < previous, "cost must shrink as the car gets closer");
        }
        previous = c;
    }
}

#[test]
fn en_route_car_pays_only_distance_to_pickup() {
    // Car at floor 2 heading up to 9; an up-request from floor 5 lies en route.
    let mut e = car(0, 2, 10);
    e.target_floor = Some(9);
    e.direction = Direction::Up;
    assert_eq!(cost(&e, &req(5, 8)), 3 * SCALE);
}

#[test]
fn incompatible_car_pays_the_detour() {
    // Car at floor 2 heading up to 9; a down-request from floor 5 costs the
    // full leg plus the return: |2-9| + |9-5| = 11 floors.
    let mut e = car(0, 2, 10);
    e.target_floor = Some(9);
    e.direction = Direction::Up;
    assert_eq!(cost(&e, &req(5, 3)), 11 * SCALE);

    // A pickup behind an up-bound car is a detour too: |2-9| + |9-1| = 15.
    assert_eq!(cost(&e, &req(1, 4)), 15 * SCALE);
}

#[test]
fn freshly_committed_car_with_idle_direction_pays_detour_cost() {
    // Between commit and the first tick a car has a target but still reports
    // Idle; it is not "moving toward" anything yet.
    let mut e = car(0, 2, 10);
    e.target_floor = Some(9);
    assert!(matches!(e.direction, Direction::Idle));
    assert_eq!(cost(&e, &req(5, 8)), (7 + 4) * SCALE);
}

#[test]
fn select_car_picks_minimum_cost() {
    let cars = vec![car(0, 1, 10), car(1, 10, 10)];
    assert_eq!(select_car(&cars, &req(5, 8)), Some(0));
    assert_eq!(select_car(&cars, &req(9, 2)), Some(1));
}

#[test]
fn deterministic_tie_break_prefers_lower_id() {
    // Two idle cars equidistant from the pickup floor: the same winner, every
    // run.
    for _ in 0..50 {
        let cars = vec![car(0, 3, 10), car(1, 7, 10)];
        assert_eq!(select_car(&cars, &req(5, 8)), Some(0));
    }
}

#[test]
fn select_car_with_no_cars() {
    let cars: Vec<Elevator> = Vec::new();
    assert_eq!(select_car(&cars, &req(5, 8)), None);
}

#[test]
fn commit_sets_target_only_on_idle_closed_car() {
    let mut e = car(0, 1, 10);
    assert!(commit(&mut e, &req(5, 8)));
    assert_eq!(e.target_floor, Some(5));

    // Busy: no second target.
    assert!(!commit(&mut e, &req(7, 9)));
    assert_eq!(e.target_floor, Some(5));

    // Idle but doors not closed: refused as well.
    let mut open_doors = car(1, 4, 10);
    open_doors.door_state = DoorState::Open;
    assert!(!commit(&mut open_doors, &req(5, 8)));
    assert!(open_doors.target_floor.is_none());
}

#[test]
fn add_request_commits_cheapest_idle_car() {
    let mut s = Scheduler::new(vec![car(0, 1, 10), car(1, 10, 10)]);
    let r = req(5, 8);
    assert_eq!(s.add_request(r), Some(0));
    assert_eq!(s.elevators[0].target_floor, Some(5));
    assert!(s.elevators[1].target_floor.is_none());
    assert_eq!(s.requests.len(), 1);
}

#[test]
fn no_double_assignment_of_a_busy_car() {
    // The cheapest car is busy (detour |5-4| + |4-5| = 2 floors, against 5 for
    // the idle car at floor 10): the pass defers the request and touches no
    // car, even though an idle car exists.
    let mut busy = car(0, 5, 10);
    busy.target_floor = Some(4);
    let mut s = Scheduler::new(vec![busy, car(1, 10, 10)]);
    let r = req(5, 8);
    assert_eq!(s.add_request(r), None);
    assert_eq!(s.elevators[0].target_floor, Some(4));
    assert!(s.elevators[1].target_floor.is_none());
    // The request is still logged for a later pass.
    assert_eq!(s.requests.len(), 1);
    assert_eq!(s.requests[0].from_floor, 5);
}

#[test]
fn request_log_grows_on_every_pass() {
    let mut s = Scheduler::new(vec![car(0, 1, 10)]);
    s.add_request(req(5, 8));
    s.add_request(req(2, 3));
    assert_eq!(s.requests.len(), 2);
    assert_eq!(s.requests[0].from_floor, 5);
    assert_eq!(s.requests[1].from_floor, 2);
}

#[test]
fn optimized_scan_defaults() {
    let s = OptimizedScan::new();
    assert_eq!(s.look_ahead_window_ms, 5000);
    assert_eq!(s.energy_weight, 500);
    assert_eq!(s.wait_time_weight, 500);
}

#[test]
fn greedy_pass_assigns_each_request_its_cheapest_car() {
    let strategy = OptimizedScan::new();
    let cars = vec![car(0, 1, 10), car(1, 10, 10)];
    let pending = vec![req(5, 8), req(9, 2)];
    let assignments = strategy.compute_assignments(&pending, &cars);
    assert_eq!(assignments.len(), 2);
    assert_eq!(assignments[0].elevator_id, 0);
    assert_eq!(assignments[0].requests.len(), 1);
    assert_eq!(assignments[0].requests[0].from_floor, 5);
    assert_eq!(assignments[0].cost, 4 * SCALE);
    assert_eq!(assignments[1].elevator_id, 1);
    assert_eq!(assignments[1].requests[0].from_floor, 9);
    assert_eq!(assignments[1].cost, 1 * SCALE);
}

#[test]
fn greedy_pass_skips_requests_whose_best_car_is_busy() {
    let strategy = OptimizedScan::new();
    let mut busy = car(0, 5, 10);
    busy.target_floor = Some(4);
    let cars = vec![busy, car(1, 10, 10)];
    let pending = vec![req(5, 8)];
    let assignments = strategy.compute_assignments(&pending, &cars);
    assert_eq!(assignments.len(), 0);
}
