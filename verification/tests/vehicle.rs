use vehicle_dashboard::response::{RateResponse, RateSource};
use vehicle_dashboard::vehicle::{AccelerateStep, IdleStep, PowerToggle, RateLimits};
use vehicle_dashboard::{ShifterGear, Vehicle};

fn running_in_first() -> Vehicle {
    let mut vehicle = Vehicle::default();
    vehicle.toggle_power(false);
    vehicle.shift_gear_up();
    vehicle
}

#[test]
fn test_vehicle_ignition() {
    let mut vehicle = Vehicle::default();

    vehicle.toggle_power(false);
    assert_eq!(vehicle.is_on(), true);

    vehicle.toggle_power(false);
    assert_eq!(vehicle.is_on(), false);
}

#[test]
fn test_vehicle_shift_gear() {
    let mut vehicle = Vehicle::default();
    vehicle.toggle_power(false);
    assert_eq!(vehicle.get_gear_str(), "P");
    vehicle.shift_gear_up();
    assert_eq!(vehicle.get_gear_str(), "1");
    vehicle.shift_gear_up();
    assert_eq!(vehicle.get_gear_str(), "2");
    vehicle.shift_gear_down();
    assert_eq!(vehicle.get_gear_str(), "1");
    vehicle.shift_gear_down();
    assert_eq!(vehicle.get_gear_str(), "P");
}

#[test]
fn test_vehicle_init() {
    let vehicle = Vehicle::default();

    assert_eq!(vehicle.get_gear_str(), "P");
    assert_eq!(vehicle.is_on(), false);
}

#[test]
fn test_vehicle_accelerate() {
    let mut vehicle = Vehicle::default();
    vehicle.toggle_power(false);
    vehicle.shift_gear_up();
    match vehicle.accelerate(false) {
        AccelerateStep::Running { acceleration, .. } => assert!(acceleration > 0),
        other => panic!("the engine should run, got {:?}", other),
    }
    assert!(vehicle.is_on());
}

#[test]
fn test_vehicle_brake() {
    let mut vehicle = Vehicle::default();
    vehicle.toggle_power(false);
    vehicle.shift_gear_up();
    vehicle.accelerate(false);
    assert_eq!(vehicle.brake(), Some(RateResponse { source: RateSource::Speed, per_mille: 80 }));
    assert!(vehicle.is_on());
}

#[test]
fn test_vehicle_idle_brake() {
    let mut vehicle = Vehicle::default();
    vehicle.toggle_power(false);
    vehicle.shift_gear_up();
    vehicle.accelerate(false);
    match vehicle.idle_brake() {
        IdleStep::Running { deceleration, .. } => assert!(deceleration > 0),
        other => panic!("the engine should run, got {:?}", other),
    }
}

#[test]
fn new_vehicle_is_off_in_parking() {
    let vehicle = Vehicle::new();
    assert!(!vehicle.is_on());
    assert_eq!(*vehicle.get_gear(), ShifterGear::Parking);
    assert_eq!(vehicle.get_gear_str(), "P");
    assert!(!vehicle.is_drive());
}

#[test]
fn toggle_outcomes() {
    let mut vehicle = Vehicle::default();
    assert_eq!(vehicle.toggle_power(true), PowerToggle::NoFuel);
    assert!(!vehicle.is_on());
    assert_eq!(vehicle.toggle_power(false), PowerToggle::TurnedOn);
    assert!(vehicle.is_on());
    vehicle.shift_gear_up();
    vehicle.shift_gear_up();
    // a running engine stops even on an empty tank, and the shifter goes to parking
    assert_eq!(vehicle.toggle_power(true), PowerToggle::TurnedOff);
    assert!(!vehicle.is_on());
    assert_eq!(*vehicle.get_gear(), ShifterGear::Parking);
}

#[test]
fn turn_on_keeps_gear_turn_off_parks() {
    let mut vehicle = running_in_first();
    vehicle.turn_off();
    assert_eq!(*vehicle.get_gear(), ShifterGear::Parking);
    vehicle.shift_gear_up();
    vehicle.turn_on();
    assert!(vehicle.is_on());
    assert_eq!(*vehicle.get_gear(), ShifterGear::Drive(1));
}

#[test]
fn shifting_stops_at_top_gear_and_parking() {
    let mut vehicle = Vehicle::default();
    for _ in 0..10 {
        vehicle.shift_gear_up();
    }
    assert_eq!(*vehicle.get_gear(), ShifterGear::Drive(6));
    assert_eq!(vehicle.get_gear_str(), "6");
    for _ in 0..10 {
        vehicle.shift_gear_down();
    }
    assert_eq!(*vehicle.get_gear(), ShifterGear::Parking);
}

#[test]
fn moving_needs_speed_and_a_gear_out_of_parking() {
    let vehicle = running_in_first();
    assert!(vehicle.is_moving(true));
    assert!(!vehicle.is_moving(false));
    let parked = Vehicle::default();
    assert!(!parked.is_moving(true));
    assert!(vehicle.is_drive());
}

#[test]
fn accelerate_with_engine_off_does_nothing() {
    let mut vehicle = Vehicle::default();
    vehicle.shift_gear_up();
    assert_eq!(vehicle.accelerate(false), AccelerateStep::EngineOff);
    assert_eq!(*vehicle.get_gear(), ShifterGear::Drive(1));
    assert!(!vehicle.is_on());
}

#[test]
fn accelerate_on_empty_tank_stalls() {
    let mut vehicle = running_in_first();
    assert_eq!(vehicle.accelerate(true), AccelerateStep::Stalled);
    assert!(!vehicle.is_on());
    assert_eq!(*vehicle.get_gear(), ShifterGear::Parking);
}

#[test]
fn accelerate_in_first_gear() {
    let mut vehicle = running_in_first();
    assert_eq!(
        vehicle.accelerate(false),
        AccelerateStep::Running {
            rate: RateResponse { source: RateSource::Throttle, per_mille: 4300 },
            acceleration: 32000,
        }
    );
    assert!(vehicle.is_on());
}

#[test]
fn accelerate_in_parking_revs_without_moving() {
    let mut vehicle = Vehicle::default();
    vehicle.toggle_power(false);
    assert_eq!(
        vehicle.accelerate(false),
        AccelerateStep::Running {
            rate: RateResponse { source: RateSource::Throttle, per_mille: 4000 },
            acceleration: 0,
        }
    );
}

#[test]
fn brake_steps() {
    let vehicle = Vehicle::default();
    assert_eq!(vehicle.brake(), None);
    let mut vehicle = running_in_first();
    assert_eq!(vehicle.brake(), Some(RateResponse { source: RateSource::Speed, per_mille: 80 }));
    vehicle.shift_gear_down();
    assert_eq!(vehicle.brake(), Some(RateResponse { source: RateSource::Idle, per_mille: 0 }));
}

#[test]
fn idle_brake_steps() {
    let vehicle = Vehicle::default();
    assert_eq!(vehicle.idle_brake(), IdleStep::EngineOff);
    let mut vehicle = running_in_first();
    vehicle.shift_gear_up();
    vehicle.shift_gear_up();
    vehicle.shift_gear_up();
    vehicle.shift_gear_up();
    assert_eq!(
        vehicle.idle_brake(),
        IdleStep::Running {
            deceleration: 2500,
            rate: RateResponse { source: RateSource::Speed, per_mille: 20 },
        }
    );
}

#[test]
fn rate_limiters_by_gear() {
    let parked = Vehicle::default();
    assert_eq!(parked.goggle_rate(), RateLimits { idle: true, max: true });
    let mut vehicle = running_in_first();
    assert_eq!(vehicle.goggle_rate(), RateLimits { idle: true, max: true });
    vehicle.shift_gear_up();
    assert_eq!(vehicle.goggle_rate(), RateLimits { idle: false, max: true });
}
