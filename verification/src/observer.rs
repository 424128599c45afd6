use vstd::prelude::*;

use crate::gear::ShifterGear;
use crate::keys::{
    action_for, action_for_held, control_of, control_of_key, Control, Event, HeldKey,
    KeyOutcome, Reaction, TickAction,
};
use crate::vehicle::{toggled, PowerToggle, Vehicle, VehicleView};

verus! {

/// The keyboard side of the dashboard: which pedal key is held, and how
/// key presses act on the vehicle. The power switch is refused while the
/// vehicle moves.
pub struct VehicleObserver {
    held: Option<HeldKey>,
}

impl View for VehicleObserver {
    type V = Option<HeldKey>;

    closed spec fn view(&self) -> Option<HeldKey> {
        self.held
    }
}

/// The held key, the vehicle and the outcome after the key named `key` is
/// pressed; `speed_positive` tells whether the speed is above zero and
/// `fuel_empty` whether the tank is empty.
pub open spec fn pressed(
    held: Option<HeldKey>,
    v: VehicleView,
    key: Seq<char>,
    speed_positive: bool,
    fuel_empty: bool,
) -> (Option<HeldKey>, VehicleView, KeyOutcome) {
    match control_of(key) {
        Control::Hold(k) => (Some(k), v, KeyOutcome::Held(k)),
        Control::Power => if speed_positive && v.gear != ShifterGear::Parking {
            (held, v, KeyOutcome::RefusedWhileMoving)
        } else {
            (held, toggled(v, fuel_empty).0, KeyOutcome::Power(toggled(v, fuel_empty).1))
        },
        Control::ShiftUp => if v.is_on {
            (held, VehicleView { is_on: v.is_on, gear: v.gear.up() }, KeyOutcome::ShiftedUp)
        } else {
            (held, v, KeyOutcome::Ignored)
        },
        Control::ShiftDown => if v.is_on {
            (held, VehicleView { is_on: v.is_on, gear: v.gear.down() }, KeyOutcome::ShiftedDown)
        } else {
            (held, v, KeyOutcome::Ignored)
        },
        Control::Unbound => (held, v, KeyOutcome::Ignored),
    }
}

impl VehicleObserver {
    /// No key held.
    pub fn new() -> (observer: VehicleObserver)
        ensures
            observer@ is None,
    {
        VehicleObserver { held: None }
    }

    /// Handles a key press (see [`pressed`]).
    pub fn key_pressed(
        &mut self,
        vehicle: &mut Vehicle,
        key: &str,
        speed_positive: bool,
        fuel_empty: bool,
    ) -> (outcome: KeyOutcome)
        ensures
            (final(self)@, final(vehicle)@, outcome) == pressed(
                old(self)@,
                old(vehicle)@,
                key@,
                speed_positive,
                fuel_empty,
            ),
    {
        match control_of_key(key) {
            Control::Hold(k) => {
                self.held = Some(k);
                KeyOutcome::Held(k)
            },
            Control::Power => {
                if vehicle.is_moving(speed_positive) {
                    return KeyOutcome::RefusedWhileMoving;
                }
                KeyOutcome::Power(vehicle.toggle_power(fuel_empty))
            },
            Control::ShiftUp => {
                if !vehicle.is_on() {
                    return KeyOutcome::Ignored;
                }
                vehicle.shift_gear_up();
                KeyOutcome::ShiftedUp
            },
            Control::ShiftDown => {
                if !vehicle.is_on() {
                    return KeyOutcome::Ignored;
                }
                vehicle.shift_gear_down();
                KeyOutcome::ShiftedDown
            },
            Control::Unbound => KeyOutcome::Ignored,
        }
    }

    /// The held key went up: no key is held any more.
    pub fn key_released(&mut self)
        ensures
            final(self)@ is None,
    {
        self.held = None;
    }

    /// What the vehicle does on a tick while the current key is held.
    pub fn key_hold(&self) -> (action: TickAction)
        ensures
            action == action_for(self@),
    {
        action_for_held(self.held)
    }
}

/// Handles one event of the dashboard's loop: a key press goes to
/// [`VehicleObserver::key_pressed`], a release to
/// [`VehicleObserver::key_released`], and a timer tick yields the action
/// of the held key.
pub fn run(
    observer: &mut VehicleObserver,
    vehicle: &mut Vehicle,
    event: Event,
    speed_positive: bool,
    fuel_empty: bool,
) -> (reaction: Reaction)
    ensures
        event matches Event::KeyPressed(key) ==> {
            let (held, v, outcome) = pressed(
                old(observer)@,
                old(vehicle)@,
                key@,
                speed_positive,
                fuel_empty,
            );
            &&& final(observer)@ == held
            &&& final(vehicle)@ == v
            &&& reaction == Reaction::Key(outcome)
        },
        event is KeyReleased ==> final(observer)@ is None && final(vehicle)@ == old(vehicle)@
            && reaction == Reaction::Released,
        event is Tick ==> final(observer)@ == old(observer)@ && final(vehicle)@ == old(vehicle)@
            && reaction == Reaction::Tick(action_for(old(observer)@)),
{
    match event {
        Event::KeyPressed(key) => Reaction::Key(
            observer.key_pressed(vehicle, key, speed_positive, fuel_empty),
        ),
        Event::KeyReleased => {
            observer.key_released();
            Reaction::Released
        },
        Event::Tick => Reaction::Tick(observer.key_hold()),
    }
}

/// The telemetry decision of a tick at `now` ms, when the last upload was
/// at `last` ms: upload when at least 100 ms have passed, and remember the
/// time of the latest upload.
pub open spec fn upload_decision(last: u64, now: u64) -> (bool, u64) {
    if now >= last + 100 {
        (true, now)
    } else {
        (false, last)
    }
}

/// The times of the uploads that ticks at the times `ticks` make, when the
/// last upload was at `last`.
pub open spec fn uploads(last: u64, ticks: Seq<u64>) -> Seq<u64>
    decreases ticks.len(),
{
    if ticks.len() == 0 {
        seq![]
    } else {
        let (send, next) = upload_decision(last, ticks[0]);
        if send {
            seq![ticks[0]] + uploads(next, ticks.drop_first())
        } else {
            uploads(next, ticks.drop_first())
        }
    }
}

/// Decides whether the tick at `now_ms` uploads telemetry (see
/// [`upload_decision`]), and returns that with the new time of the last
/// upload.
pub fn telemetry_step(last_ms: u64, now_ms: u64) -> (step: (bool, u64))
    ensures
        step == upload_decision(last_ms, now_ms),
{
    if now_ms >= last_ms && now_ms - last_ms >= 100 {
        (true, now_ms)
    } else {
        (false, last_ms)
    }
}

/// A tick uploads exactly when it comes at least 100 ms after the last
/// upload; then the tick's time becomes the time of the last upload, and
/// otherwise that time stays as it was.
pub proof fn lemma_upload_rule(last: u64, now: u64)
    ensures
        upload_decision(last, now).0 <==> now as int - last as int >= 100,
        upload_decision(last, now).0 ==> upload_decision(last, now).1 == now,
        !upload_decision(last, now).0 ==> upload_decision(last, now).1 == last,
{
}

/// Uploads are at least 100 ms apart, and the first comes at least 100 ms
/// after the last upload before them, whatever the times of the ticks.
pub proof fn lemma_uploads_spaced(last: u64, ticks: Seq<u64>)
    ensures
        forall|i: int| 0 <= i < uploads(last, ticks).len() ==> uploads(last, ticks)[i] >= last + 100,
        forall|i: int, j: int|
            0 <= i < j < uploads(last, ticks).len() ==> uploads(last, ticks)[j] >= uploads(
                last,
                ticks,
            )[i] + 100,
    decreases ticks.len(),
{
    if ticks.len() > 0 {
        let (send, next) = upload_decision(last, ticks[0]);
        let rest = uploads(next, ticks.drop_first());
        lemma_uploads_spaced(next, ticks.drop_first());
        if send {
            let all = uploads(last, ticks);
            assert(all == seq![ticks[0]] + rest);
            assert forall|i: int| 0 <= i < all.len() implies all[i] >= last + 100 by {
                if i > 0 {
                    assert(all[i] == rest[i - 1]);
                }
            }
            assert forall|i: int, j: int| 0 <= i < j < all.len() implies all[j] >= all[i] + 100 by {
                assert(all[j] == rest[j - 1]);
                if i > 0 {
                    assert(all[i] == rest[i - 1]);
                }
            }
        }
    }
}

/// A pedal key stays in effect on every tick until it is released; after a
/// release, ticks roll the vehicle.
pub proof fn lemma_held_key_drives_ticks(
    held: Option<HeldKey>,
    v: VehicleView,
    key: Seq<char>,
    speed_positive: bool,
    fuel_empty: bool,
)
    requires
        control_of(key) matches Control::Hold(k),
    ensures
        ({
            let after = pressed(held, v, key, speed_positive, fuel_empty);
            &&& after.1 == v
            &&& control_of(key) matches Control::Hold(k) && after.0 == Some(k)
            &&& action_for(after.0) != TickAction::IdleBrake
        }),
        action_for(None) == TickAction::IdleBrake,
{
}

/// The power switch never changes anything while the vehicle moves, and
/// the shift keys never change anything while the engine is off.
pub proof fn lemma_guards(
    held: Option<HeldKey>,
    v: VehicleView,
    key: Seq<char>,
    speed_positive: bool,
    fuel_empty: bool,
)
    ensures
        control_of(key) == Control::Power && speed_positive && v.gear != ShifterGear::Parking
            ==> pressed(held, v, key, speed_positive, fuel_empty) == (
        held,
        v,
        KeyOutcome::RefusedWhileMoving,
    ),
        (control_of(key) == Control::ShiftUp || control_of(key) == Control::ShiftDown) && !v.is_on
            ==> pressed(held, v, key, speed_positive, fuel_empty) == (held, v, KeyOutcome::Ignored),
        control_of(key) == Control::Unbound ==> pressed(held, v, key, speed_positive, fuel_empty)
            == (held, v, KeyOutcome::Ignored),
{
}

/// A key press on the dashboard, for every held key, vehicle, speed and fuel
/// state: a pedal key becomes the held key and leaves the vehicle alone; the
/// power switch does nothing while the vehicle moves and otherwise turns a
/// running engine off (parking the shifter), or starts a stopped one unless
/// the tank is empty; with the engine running `shift` and `alt` move the
/// shifter one gear up or down whether or not the vehicle moves, and with the
/// engine off they do nothing; any other key does nothing. Only a pedal key
/// changes the held key.
pub proof fn lemma_key_press(
    held: Option<HeldKey>,
    v: VehicleView,
    key: Seq<char>,
    speed_positive: bool,
    fuel_empty: bool,
)
    ensures
        ({
            let r = pressed(held, v, key, speed_positive, fuel_empty);
            let moving = speed_positive && v.gear != ShifterGear::Parking;
            &&& control_of(key) is Hold ==> r == (
                Some(control_of(key)->0),
                v,
                KeyOutcome::Held(control_of(key)->0),
            )
            &&& control_of(key) == Control::Power && moving ==> r == (
                held,
                v,
                KeyOutcome::RefusedWhileMoving,
            )
            &&& control_of(key) == Control::Power && !moving && v.is_on ==> r == (
                held,
                VehicleView { is_on: false, gear: ShifterGear::Parking },
                KeyOutcome::Power(PowerToggle::TurnedOff),
            )
            &&& control_of(key) == Control::Power && !moving && !v.is_on && fuel_empty ==> r == (
                held,
                v,
                KeyOutcome::Power(PowerToggle::NoFuel),
            )
            &&& control_of(key) == Control::Power && !moving && !v.is_on && !fuel_empty ==> r == (
                held,
                VehicleView { is_on: true, gear: v.gear },
                KeyOutcome::Power(PowerToggle::TurnedOn),
            )
            &&& control_of(key) == Control::ShiftUp && v.is_on ==> r == (
                held,
                VehicleView { is_on: true, gear: v.gear.up() },
                KeyOutcome::ShiftedUp,
            )
            &&& control_of(key) == Control::ShiftDown && v.is_on ==> r == (
                held,
                VehicleView { is_on: true, gear: v.gear.down() },
                KeyOutcome::ShiftedDown,
            )
            &&& (control_of(key) == Control::ShiftUp || control_of(key) == Control::ShiftDown)
                && !v.is_on ==> r == (held, v, KeyOutcome::Ignored)
            &&& control_of(key) == Control::Unbound ==> r == (held, v, KeyOutcome::Ignored)
            &&& !(control_of(key) is Hold) ==> r.0 == held
        }),
{
}

} // verus!
