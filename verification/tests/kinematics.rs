use h3ist::config::SystemConfig;
use h3ist::elevator::Elevator;
use h3ist::{Direction, DoorState, LiftError, Request, EPSILON, SCALE};

fn test_config() -> SystemConfig {
    // 4 cars, 32 floors, 2.5 floors/s^2, 2 floors/s, 800 passengers.
    SystemConfig::new(4, 32, 2500, 2_000_000, 800).unwrap()
}

fn car_at(floor: i64, num_floors: u32) -> Elevator {
    Elevator {
        id: 0,
        current_floor: floor * SCALE,
        target_floor: None,
        direction: Direction::Idle,
        passengers: Vec::new(),
        speed: 0,
        acceleration: 2500,
        load: 0,
        max_load: 800,
        door_state: DoorState::Closed,
        num_floors,
    }
}

#[test]
fn new_car_is_parked_at_floor_one() {
    let config = test_config();
    let e = Elevator::new(3, &config);
    assert_eq!(e.id, 3);
    assert_eq!(e.current_floor, SCALE);
    assert!(e.target_floor.is_none());
    assert!(matches!(e.direction, Direction::Idle));
    assert_eq!(e.speed, 0);
    assert_eq!(e.acceleration, 2500);
    assert_eq!(e.load, 0);
    assert_eq!(e.max_load, 800);
    assert!(matches!(e.door_state, DoorState::Closed));
    assert_eq!(e.num_floors, 32);
    assert!(e.passengers.is_empty());
}

#[test]
fn zero_tick_is_rejected_and_changes_nothing() {
    let mut e = car_at(4, 32);
    e.target_floor = Some(9);
    let before_floor = e.current_floor;
    let r = e.update(0);
    assert_eq!(r, Err(LiftError::InvalidDeltaTime));
    assert_eq!(e.current_floor, before_floor);
    assert_eq!(e.target_floor, Some(9));
    assert_eq!(e.speed, 0);
}

#[test]
fn idle_car_rests_and_doors_advance() {
    let mut e = car_at(7, 32);
    e.speed = 123; // a torn state: no target but some leftover speed
    e.door_state = DoorState::Opening;
    e.update(100).unwrap();
    assert_eq!(e.speed, 0);
    assert!(matches!(e.direction, Direction::Idle));
    assert!(matches!(e.door_state, DoorState::Open));
    assert_eq!(e.current_floor, 7 * SCALE);
}

#[test]
fn arrival_convergence_at_reference_parameters() {
    // An idle car at floor 1 with target 5, ticked at 100 ms, must dock in
    // finitely many ticks, exactly at the target, doors beginning to open.
    let mut e = car_at(1, 32);
    e.target_floor = Some(5);
    let mut ticks = 0u32;
    while e.target_floor.is_some() {
        e.update(100).unwrap();
        ticks += 1;
        assert!(ticks < 1000, "car never docked");
    }
    assert_eq!(e.current_floor, 5 * SCALE);
    assert_eq!(e.speed, 0);
    assert!(matches!(e.direction, Direction::Idle));
    assert!(matches!(e.door_state, DoorState::Opening));
}

#[test]
fn arrival_convergence_with_small_ticks() {
    // The regime of the verified convergence law: 4 <= a*dt*dt <= EPSILON/4.
    let mut e = car_at(2, 10);
    e.target_floor = Some(7);
    assert!(4 <= 2500 * 1 * 1 && 4 * (2500 * 1 * 1) <= EPSILON);
    let mut ticks = 0u64;
    while e.target_floor.is_some() {
        e.update(1).unwrap();
        ticks += 1;
        assert!(ticks < 1_000_000, "car never docked");
    }
    assert_eq!(e.current_floor, 7 * SCALE);
    assert!(matches!(e.door_state, DoorState::Opening));
}

#[test]
fn car_within_epsilon_snaps_to_target() {
    let mut e = car_at(3, 32);
    e.current_floor = 3 * SCALE + EPSILON - 1;
    e.target_floor = Some(3);
    e.speed = 42;
    e.update(100).unwrap();
    assert_eq!(e.current_floor, 3 * SCALE);
    assert_eq!(e.speed, 0);
    assert!(e.target_floor.is_none());
    assert!(matches!(e.door_state, DoorState::Opening));
}

#[test]
fn non_overshoot_above_whatever_the_tick() {
    // A car screaming upward toward the top floor must clamp at it.
    let mut e = car_at(9, 10);
    e.target_floor = Some(10);
    e.speed = 50_000_000; // 50 floors per second
    e.update(10_000).unwrap();
    assert!(e.current_floor <= 10 * SCALE);
    assert!(e.current_floor >= SCALE);
}

#[test]
fn non_overshoot_below_whatever_the_tick() {
    let mut e = car_at(2, 10);
    e.target_floor = Some(1);
    e.speed = -50_000_000;
    e.update(10_000).unwrap();
    assert!(e.current_floor >= SCALE);
    assert!(e.current_floor <= 10 * SCALE);
}

#[test]
fn doors_cycle_closed_opening_open_closing_closed() {
    let mut e = car_at(1, 32);
    e.target_floor = Some(1 + 1);
    // Drive to arrival.
    let mut ticks = 0u32;
    while e.target_floor.is_some() {
        e.update(100).unwrap();
        ticks += 1;
        assert!(ticks < 1000);
    }
    assert!(matches!(e.door_state, DoorState::Opening));
    e.update(100).unwrap();
    assert!(matches!(e.door_state, DoorState::Open));
    e.update(100).unwrap();
    assert!(matches!(e.door_state, DoorState::Closing));
    e.update(100).unwrap();
    assert!(matches!(e.door_state, DoorState::Closed));
    e.update(100).unwrap();
    assert!(matches!(e.door_state, DoorState::Closed));
}

#[test]
fn moving_car_reports_direction_of_travel() {
    let mut up = car_at(2, 32);
    up.target_floor = Some(9);
    up.update(100).unwrap();
    assert!(matches!(up.direction, Direction::Up));
    assert!(up.speed > 0);

    let mut down = car_at(9, 32);
    down.target_floor = Some(2);
    down.update(100).unwrap();
    assert!(matches!(down.direction, Direction::Down));
    assert!(down.speed < 0);
}

#[test]
fn one_reference_tick_integrates_exactly() {
    // From rest toward a far target: after one 100 ms tick the speed is
    // a*dt = 250_000 units/ms (0.25 floors/s) and the position advanced by
    // speed*dt = 25_000_000 units (0.025 floors).
    let mut e = car_at(1, 32);
    e.target_floor = Some(30);
    e.update(100).unwrap();
    assert_eq!(e.speed, 250_000);
    assert_eq!(e.current_floor, SCALE + 25_000_000);
}
