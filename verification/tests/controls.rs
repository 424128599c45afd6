use vehicle_dashboard::keys::{
    action_for_held, control_of_key, same_text, Control, Event, HeldKey, KeyOutcome, Reaction,
    TickAction,
};
use vehicle_dashboard::observer::{self, telemetry_step, VehicleObserver};
use vehicle_dashboard::ui;
use vehicle_dashboard::vehicle::{PowerToggle, RateLimits};
use vehicle_dashboard::{ShifterGear, Vehicle};

#[test]
fn text_equality() {
    assert!(same_text("shift", "shift"));
    assert!(!same_text("shift", "shif"));
    assert!(!same_text("alt", "Alt"));
    assert!(same_text("", ""));
    assert!(same_text("é", "é"));
}

#[test]
fn key_names() {
    assert_eq!(control_of_key("w"), Control::Hold(HeldKey::Throttle));
    assert_eq!(control_of_key("s"), Control::Hold(HeldKey::Brake));
    assert_eq!(control_of_key("r"), Control::Hold(HeldKey::Refuel));
    assert_eq!(control_of_key("e"), Control::Power);
    assert_eq!(control_of_key("shift"), Control::ShiftUp);
    assert_eq!(control_of_key("alt"), Control::ShiftDown);
    assert_eq!(control_of_key("W"), Control::Unbound);
    assert_eq!(control_of_key("ww"), Control::Unbound);
    assert_eq!(control_of_key(""), Control::Unbound);
}

#[test]
fn tick_actions() {
    assert_eq!(action_for_held(Some(HeldKey::Throttle)), TickAction::Accelerate);
    assert_eq!(action_for_held(Some(HeldKey::Brake)), TickAction::Brake);
    assert_eq!(action_for_held(Some(HeldKey::Refuel)), TickAction::Refuel);
    assert_eq!(action_for_held(None), TickAction::IdleBrake);
}

#[test]
fn held_key_until_release() {
    let mut keys = VehicleObserver::new();
    let mut vehicle = Vehicle::default();
    assert_eq!(keys.key_hold(), TickAction::IdleBrake);
    assert_eq!(keys.key_pressed(&mut vehicle, "w", false, false), KeyOutcome::Held(HeldKey::Throttle));
    assert_eq!(keys.key_hold(), TickAction::Accelerate);
    // another key does not release the pedal
    keys.key_pressed(&mut vehicle, "e", false, false);
    assert_eq!(keys.key_hold(), TickAction::Accelerate);
    keys.key_pressed(&mut vehicle, "r", false, false);
    assert_eq!(keys.key_hold(), TickAction::Refuel);
    keys.key_released();
    assert_eq!(keys.key_hold(), TickAction::IdleBrake);
}

#[test]
fn power_key_refused_while_moving() {
    let mut keys = VehicleObserver::new();
    let mut vehicle = Vehicle::default();
    assert_eq!(keys.key_pressed(&mut vehicle, "e", false, false), KeyOutcome::Power(PowerToggle::TurnedOn));
    keys.key_pressed(&mut vehicle, "shift", false, false);
    assert_eq!(keys.key_pressed(&mut vehicle, "e", true, false), KeyOutcome::RefusedWhileMoving);
    assert!(vehicle.is_on());
    assert_eq!(*vehicle.get_gear(), ShifterGear::Drive(1));
    assert_eq!(keys.key_pressed(&mut vehicle, "e", false, false), KeyOutcome::Power(PowerToggle::TurnedOff));
    assert!(!vehicle.is_on());
}

#[test]
fn power_key_with_empty_tank() {
    let mut keys = VehicleObserver::new();
    let mut vehicle = Vehicle::default();
    assert_eq!(keys.key_pressed(&mut vehicle, "e", false, true), KeyOutcome::Power(PowerToggle::NoFuel));
    assert!(!vehicle.is_on());
}

#[test]
fn shift_keys_need_the_engine() {
    let mut keys = VehicleObserver::new();
    let mut vehicle = Vehicle::default();
    assert_eq!(keys.key_pressed(&mut vehicle, "shift", false, false), KeyOutcome::Ignored);
    assert_eq!(*vehicle.get_gear(), ShifterGear::Parking);
    keys.key_pressed(&mut vehicle, "e", false, false);
    assert_eq!(keys.key_pressed(&mut vehicle, "shift", false, false), KeyOutcome::ShiftedUp);
    assert_eq!(keys.key_pressed(&mut vehicle, "shift", false, false), KeyOutcome::ShiftedUp);
    assert_eq!(vehicle.get_gear_str(), "2");
    assert_eq!(keys.key_pressed(&mut vehicle, "alt", false, false), KeyOutcome::ShiftedDown);
    assert_eq!(vehicle.get_gear_str(), "1");
    assert_eq!(keys.key_pressed(&mut vehicle, "q", false, false), KeyOutcome::Ignored);
}

#[test]
fn run_dispatches_events() {
    let mut keys = VehicleObserver::new();
    let mut vehicle = Vehicle::default();
    assert_eq!(
        observer::run(&mut keys, &mut vehicle, Event::KeyPressed("e"), false, false),
        Reaction::Key(KeyOutcome::Power(PowerToggle::TurnedOn))
    );
    assert_eq!(
        observer::run(&mut keys, &mut vehicle, Event::KeyPressed("s"), false, false),
        Reaction::Key(KeyOutcome::Held(HeldKey::Brake))
    );
    assert_eq!(
        observer::run(&mut keys, &mut vehicle, Event::Tick, false, false),
        Reaction::Tick(TickAction::Brake)
    );
    assert_eq!(
        observer::run(&mut keys, &mut vehicle, Event::KeyReleased, false, false),
        Reaction::Released
    );
    assert_eq!(
        observer::run(&mut keys, &mut vehicle, Event::Tick, false, false),
        Reaction::Tick(TickAction::IdleBrake)
    );
    assert!(vehicle.is_on());
}

#[test]
fn telemetry_every_hundred_ms() {
    assert_eq!(telemetry_step(0, 0), (false, 0));
    assert_eq!(telemetry_step(0, 99), (false, 0));
    assert_eq!(telemetry_step(0, 100), (true, 100));
    assert_eq!(telemetry_step(100, 150), (false, 100));
    assert_eq!(telemetry_step(100, 5000), (true, 5000));
    // a clock reading before the last upload never uploads
    assert_eq!(telemetry_step(500, 20), (false, 500));
    assert_eq!(telemetry_step(u64::MAX - 10, u64::MAX), (false, u64::MAX - 10));
}

#[test]
fn telemetry_ticks_are_spaced() {
    let mut last = 0;
    let mut sent = Vec::new();
    for now in (0..1000).step_by(16) {
        let (send, next) = telemetry_step(last, now);
        last = next;
        if send {
            sent.push(now);
        }
    }
    assert_eq!(sent, vec![112, 224, 336, 448, 560, 672, 784, 896]);
}

#[test]
fn window_power_key_ignores_motion() {
    let mut keys = ui::VehicleObserver::new();
    let mut vehicle = Vehicle::default();
    assert_eq!(keys.key_pressed(&mut vehicle, "e", false), KeyOutcome::Power(PowerToggle::TurnedOn));
    keys.key_pressed(&mut vehicle, "shift", false);
    assert_eq!(keys.key_pressed(&mut vehicle, "e", false), KeyOutcome::Power(PowerToggle::TurnedOff));
    assert_eq!(*vehicle.get_gear(), ShifterGear::Parking);
    assert_eq!(keys.key_pressed(&mut vehicle, "e", true), KeyOutcome::Power(PowerToggle::NoFuel));
}

#[test]
fn window_rate_limiters_follow_the_engine() {
    let keys = ui::VehicleObserver::new();
    let mut vehicle = Vehicle::default();
    assert_eq!(keys.goggle_rate(&vehicle), RateLimits { idle: false, max: false });
    vehicle.turn_on();
    vehicle.shift_gear_up();
    vehicle.shift_gear_up();
    assert_eq!(keys.goggle_rate(&vehicle), RateLimits { idle: true, max: true });
}

#[test]
fn window_run_dispatches_events() {
    let mut keys = ui::VehicleObserver::new();
    let mut vehicle = Vehicle::default();
    assert_eq!(
        ui::run(&mut keys, &mut vehicle, Event::KeyPressed("w"), false),
        Reaction::Key(KeyOutcome::Held(HeldKey::Throttle))
    );
    assert_eq!(ui::run(&mut keys, &mut vehicle, Event::Tick, false), Reaction::Tick(TickAction::Accelerate));
    assert_eq!(ui::run(&mut keys, &mut vehicle, Event::KeyReleased, false), Reaction::Released);
    assert_eq!(keys.key_hold(), TickAction::IdleBrake);
}
