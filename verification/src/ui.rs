use vstd::prelude::*;

use crate::keys::{
    action_for, action_for_held, control_of, control_of_key, Control, Event, HeldKey,
    KeyOutcome, Reaction, TickAction,
};
use crate::gear::ShifterGear;
use crate::vehicle::{toggled, PowerToggle, RateLimits, Vehicle, VehicleView};

verus! {

/// The keyboard side of the plain dashboard window: which pedal key is
/// held, and how key presses act on the vehicle. Here the power switch
/// acts whether or not the vehicle moves.
pub struct VehicleObserver {
    held: Option<HeldKey>,
}

impl View for VehicleObserver {
    type V = Option<HeldKey>;

    closed spec fn view(&self) -> Option<HeldKey> {
        self.held
    }
}

/// The held key, the vehicle and the outcome after the key named `key` is
/// pressed; `fuel_empty` tells whether the tank is empty.
pub open spec fn pressed(held: Option<HeldKey>, v: VehicleView, key: Seq<char>, fuel_empty: bool) -> (
    Option<HeldKey>,
    VehicleView,
    KeyOutcome,
) {
    match control_of(key) {
        Control::Hold(k) => (Some(k), v, KeyOutcome::Held(k)),
        Control::Power => (
            held,
            toggled(v, fuel_empty).0,
            KeyOutcome::Power(toggled(v, fuel_empty).1),
        ),
        Control::ShiftUp => if v.is_on {
            (held, VehicleView { is_on: v.is_on, gear: v.gear.up() }, KeyOutcome::ShiftedUp)
        } else {
            (held, v, KeyOutcome::Ignored)
        },
        Control::ShiftDown => if v.is_on {
            (held, VehicleView { is_on: v.is_on, gear: v.gear.down() }, KeyOutcome::ShiftedDown)
        } else {
            (held, v, KeyOutcome::Ignored)
        },
        Control::Unbound => (held, v, KeyOutcome::Ignored),
    }
}

impl VehicleObserver {
    /// No key held.
    pub fn new() -> (observer: VehicleObserver)
        ensures
            observer@ is None,
    {
        VehicleObserver { held: None }
    }

    /// Handles a key press (see [`pressed`]).
    pub fn key_pressed(&mut self, vehicle: &mut Vehicle, key: &str, fuel_empty: bool) -> (outcome:
        KeyOutcome)
        ensures
            (final(self)@, final(vehicle)@, outcome) == pressed(
                old(self)@,
                old(vehicle)@,
                key@,
                fuel_empty,
            ),
    {
        match control_of_key(key) {
            Control::Hold(k) => {
                self.held = Some(k);
                KeyOutcome::Held(k)
            },
            Control::Power => KeyOutcome::Power(vehicle.toggle_power(fuel_empty)),
            Control::ShiftUp => {
                if !vehicle.is_on() {
                    return KeyOutcome::Ignored;
                }
                vehicle.shift_gear_up();
                KeyOutcome::ShiftedUp
            },
            Control::ShiftDown => {
                if !vehicle.is_on() {
                    return KeyOutcome::Ignored;
                }
                vehicle.shift_gear_down();
                KeyOutcome::ShiftedDown
            },
            Control::Unbound => KeyOutcome::Ignored,
        }
    }

    /// The held key went up: no key is held any more.
    pub fn key_released(&mut self)
        ensures
            final(self)@ is None,
    {
        self.held = None;
    }

    /// What the vehicle does on a tick while the current key is held.
    pub fn key_hold(&self) -> (action: TickAction)
        ensures
            action == action_for(self@),
    {
        action_for_held(self.held)
    }

    /// The rate limiters of a tick: none with the engine off, both the idle
    /// and the maximum limiter with the engine on.
    pub fn goggle_rate(&self, vehicle: &Vehicle) -> (limits: RateLimits)
        ensures
            limits.idle == vehicle@.is_on,
            limits.max == vehicle@.is_on,
    {
        if !vehicle.is_on() {
            return RateLimits { idle: false, max: false };
        }
        RateLimits { idle: true, max: true }
    }
}

/// Handles one event of the dashboard's loop: a key press goes to
/// [`VehicleObserver::key_pressed`], a release to
/// [`VehicleObserver::key_released`], and a timer tick yields the action
/// of the held key.
pub fn run(observer: &mut VehicleObserver, vehicle: &mut Vehicle, event: Event, fuel_empty: bool) -> (reaction:
    Reaction)
    ensures
        event matches Event::KeyPressed(key) ==> {
            let (held, v, outcome) = pressed(old(observer)@, old(vehicle)@, key@, fuel_empty);
            &&& final(observer)@ == held
            &&& final(vehicle)@ == v
            &&& reaction == Reaction::Key(outcome)
        },
        event is KeyReleased ==> final(observer)@ is None && final(vehicle)@ == old(vehicle)@
            && reaction == Reaction::Released,
        event is Tick ==> final(observer)@ == old(observer)@ && final(vehicle)@ == old(vehicle)@
            && reaction == Reaction::Tick(action_for(old(observer)@)),
{
    match event {
        Event::KeyPressed(key) => Reaction::Key(observer.key_pressed(vehicle, key, fuel_empty)),
        Event::KeyReleased => {
            observer.key_released();
            Reaction::Released
        },
        Event::Tick => Reaction::Tick(observer.key_hold()),
    }
}

/// In this window the power switch acts whether or not the vehicle moves,
/// the shift keys never change anything while the engine is off, and a pedal
/// key never touches the vehicle.
pub proof fn lemma_controls(held: Option<HeldKey>, v: VehicleView, key: Seq<char>, fuel_empty: bool)
    ensures
        control_of(key) == Control::Power ==> pressed(held, v, key, fuel_empty) == (
            held,
            toggled(v, fuel_empty).0,
            KeyOutcome::Power(toggled(v, fuel_empty).1),
        ),
        (control_of(key) == Control::ShiftUp || control_of(key) == Control::ShiftDown) && !v.is_on
            ==> pressed(held, v, key, fuel_empty) == (held, v, KeyOutcome::Ignored),
        control_of(key) is Hold ==> pressed(held, v, key, fuel_empty).1 == v,
{
}

/// A key press in the plain window, for every held key, vehicle and fuel
/// state: a pedal key becomes the held key and leaves the vehicle alone; the
/// power switch turns a running engine off (parking the shifter), or starts
/// a stopped one unless the tank is empty; with the engine running `shift`
/// and `alt` move the shifter one gear up or down, and with the engine off
/// they do nothing; any other key does nothing. Only a pedal key changes the
/// held key.
pub proof fn lemma_key_press(held: Option<HeldKey>, v: VehicleView, key: Seq<char>, fuel_empty: bool)
    ensures
        ({
            let r = pressed(held, v, key, fuel_empty);
            &&& control_of(key) is Hold ==> r == (
                Some(control_of(key)->0),
                v,
                KeyOutcome::Held(control_of(key)->0),
            )
            &&& control_of(key) == Control::Power && v.is_on ==> r == (
                held,
                VehicleView { is_on: false, gear: ShifterGear::Parking },
                KeyOutcome::Power(PowerToggle::TurnedOff),
            )
            &&& control_of(key) == Control::Power && !v.is_on && fuel_empty ==> r == (
                held,
                v,
                KeyOutcome::Power(PowerToggle::NoFuel),
            )
            &&& control_of(key) == Control::Power && !v.is_on && !fuel_empty ==> r == (
                held,
                VehicleView { is_on: true, gear: v.gear },
                KeyOutcome::Power(PowerToggle::TurnedOn),
            )
            &&& control_of(key) == Control::ShiftUp && v.is_on ==> r == (
                held,
                VehicleView { is_on: true, gear: v.gear.up() },
                KeyOutcome::ShiftedUp,
            )
            &&& control_of(key) == Control::ShiftDown && v.is_on ==> r == (
                held,
                VehicleView { is_on: true, gear: v.gear.down() },
                KeyOutcome::ShiftedDown,
            )
            &&& (control_of(key) == Control::ShiftUp || control_of(key) == Control::ShiftDown)
                && !v.is_on ==> r == (held, v, KeyOutcome::Ignored)
            &&& control_of(key) == Control::Unbound ==> r == (held, v, KeyOutcome::Ignored)
            &&& !(control_of(key) is Hold) ==> r.0 == held
        }),
{
}

} // verus!
