use vstd::prelude::*;

use crate::gear::ShifterGear;
use crate::response::{
    acceleration, acceleration_of, coast_response, coast_response_of, rolling_deceleration,
    rolling_deceleration_of, throttle_response, throttle_response_of, RateResponse,
};

verus! {

/// The engine switch and the shifter of a vehicle: the part of its state
/// that the drive logic decides on. The measured quantities (fuel, speed,
/// engine rate, temperature, pedal positions) are kept by the simulator
/// that drives this type.
pub struct Vehicle {
    is_on: bool,
    gear: ShifterGear,
}

/// The abstract state of a [`Vehicle`].
pub struct VehicleView {
    pub is_on: bool,
    pub gear: ShifterGear,
}

impl View for Vehicle {
    type V = VehicleView;

    closed spec fn view(&self) -> VehicleView {
        VehicleView { is_on: self.is_on, gear: self.gear }
    }
}

/// What a press of the power switch did.
#[derive(Clone, Copy, Debug, PartialEq, Eq, Structural)]
pub enum PowerToggle {
    /// The engine was running and is now off (speed and rate drop to zero).
    TurnedOff,
    /// The engine was off and stays off: the tank is empty.
    NoFuel,
    /// The engine was off and is now running.
    TurnedOn,
}

/// What one tick of holding the throttle does.
#[derive(Clone, Copy, Debug, PartialEq, Eq, Structural)]
pub enum AccelerateStep {
    /// The engine is off: nothing changes.
    EngineOff,
    /// The tank is empty: the engine has been turned off.
    Stalled,
    /// The engine runs: the rate moves towards `rate` and, in a forward
    /// gear, the speed grows by the throttle times `acceleration`
    /// (thousandths of a speed unit per second).
    Running { rate: RateResponse, acceleration: u32 },
}

/// What one tick with no pedal pressed does.
#[derive(Clone, Copy, Debug, PartialEq, Eq, Structural)]
pub enum IdleStep {
    /// The engine is off: rate and speed run down on their own.
    EngineOff,
    /// The engine runs: the speed falls by `deceleration` (thousandths of a
    /// speed unit per second) and the rate moves towards `rate`.
    Running { deceleration: u32, rate: RateResponse },
}

/// Which of the rate limiters a tick applies.
#[derive(Clone, Copy, Debug, PartialEq, Eq, Structural)]
pub struct RateLimits {
    /// Jitter the rate when it sits at the idle rate.
    pub idle: bool,
    /// Jitter the rate when it sits at the maximum rate.
    pub max: bool,
}

/// The state of a vehicle after a press of the power switch, and what the
/// press did: a running engine is turned off (and the shifter goes to
/// parking); an engine that is off starts unless the tank is empty.
pub open spec fn toggled(v: VehicleView, fuel_empty: bool) -> (VehicleView, PowerToggle) {
    if v.is_on {
        (VehicleView { is_on: false, gear: ShifterGear::Parking }, PowerToggle::TurnedOff)
    } else if fuel_empty {
        (v, PowerToggle::NoFuel)
    } else {
        (VehicleView { is_on: true, gear: v.gear }, PowerToggle::TurnedOn)
    }
}

impl Vehicle {
    #[verifier::type_invariant]
    spec fn shifter_reachable(self) -> bool {
        self.gear.is_selectable()
    }

    /// A vehicle as it leaves the factory: engine off, shifter in parking.
    pub fn new() -> (vehicle: Vehicle)
        ensures
            !vehicle@.is_on,
            vehicle@.gear == ShifterGear::Parking,
    {
        Vehicle { is_on: false, gear: ShifterGear::Parking }
    }

    pub fn is_on(&self) -> (on: bool)
        ensures
            on == self@.is_on,
    {
        self.is_on
    }

    /// Starts the engine; the shifter does not move.
    pub fn turn_on(&mut self)
        ensures
            final(self)@.is_on,
            final(self)@.gear == old(self)@.gear,
    {
        proof {
            use_type_invariant(&*self);
        }
        self.is_on = true;
    }

    /// Stops the engine and puts the shifter in parking.
    pub fn turn_off(&mut self)
        ensures
            !final(self)@.is_on,
            final(self)@.gear == ShifterGear::Parking,
    {
        self.gear = ShifterGear::Parking;
        self.is_on = false;
    }

    /// Presses the power switch (see [`toggled`]); `fuel_empty` tells
    /// whether the tank holds no fuel.
    pub fn toggle_power(&mut self, fuel_empty: bool) -> (outcome: PowerToggle)
        ensures
            (final(self)@, outcome) == toggled(old(self)@, fuel_empty),
    {
        if self.is_on() {
            self.turn_off();
            PowerToggle::TurnedOff
        } else {
            if fuel_empty {
                return PowerToggle::NoFuel;
            }
            self.turn_on();
            PowerToggle::TurnedOn
        }
    }

    /// The current gear, which is always parking or a forward gear `1..=6`:
    /// no method of a vehicle selects neutral.
    pub fn get_gear(&self) -> (gear: &ShifterGear)
        ensures
            *gear == self@.gear,
            gear.is_selectable(),
    {
        proof {
            use_type_invariant(self);
        }
        &self.gear
    }

    /// The text the shifter display shows for the current gear: `"P"` or
    /// the digit of a forward gear, never `"N"` or `"?"`.
    pub fn get_gear_str(&self) -> (text: &'static str)
        ensures
            text@ == self@.gear.label(),
            text@ == seq!['P'] || text@ == seq!['1'] || text@ == seq!['2'] || text@ == seq!['3']
                || text@ == seq!['4'] || text@ == seq!['5'] || text@ == seq!['6'],
    {
        proof {
            use_type_invariant(self);
            crate::gear::lemma_selectable_gear_label(self.gear);
        }
        self.gear.label_str()
    }

    /// Whether a forward gear is engaged.
    pub fn is_drive(&self) -> (drive: bool)
        ensures
            drive == (self@.gear is Drive),
    {
        self.gear.is_forward()
    }

    /// Whether the vehicle is moving: its speed is above zero
    /// (`speed_positive`) and the shifter is not in parking.
    pub fn is_moving(&self, speed_positive: bool) -> (moving: bool)
        ensures
            moving == (speed_positive && self@.gear != ShifterGear::Parking),
    {
        speed_positive && self.gear != ShifterGear::Parking
    }

    /// Shifts one gear up; the engine state does not change.
    pub fn shift_gear_up(&mut self)
        ensures
            final(self)@.gear == old(self)@.gear.up(),
            final(self)@.is_on == old(self)@.is_on,
    {
        proof {
            use_type_invariant(&*self);
        }
        self.gear = self.gear.shifted_up();
    }

    /// Shifts one gear down; the engine state does not change.
    pub fn shift_gear_down(&mut self)
        ensures
            final(self)@.gear == old(self)@.gear.down(),
            final(self)@.is_on == old(self)@.is_on,
    {
        proof {
            use_type_invariant(&*self);
        }
        self.gear = self.gear.shifted_down();
    }

    /// One tick of holding the throttle. With the engine off nothing
    /// changes; with an empty tank (`fuel_empty`) the engine is turned off;
    /// otherwise the gear's throttle response and acceleration apply.
    pub fn accelerate(&mut self, fuel_empty: bool) -> (step: AccelerateStep)
        ensures
            !old(self)@.is_on ==> step == AccelerateStep::EngineOff && final(self)@ == old(self)@,
            old(self)@.is_on && fuel_empty ==> step == AccelerateStep::Stalled && !final(self)@.is_on
                && final(self)@.gear == ShifterGear::Parking,
            old(self)@.is_on && !fuel_empty ==> final(self)@ == old(self)@ && step
                == (AccelerateStep::Running {
                rate: throttle_response_of(old(self)@.gear),
                acceleration: acceleration_of(old(self)@.gear),
            }),
    {
        if !self.is_on() {
            return AccelerateStep::EngineOff;
        }
        if fuel_empty {
            self.turn_off();
            return AccelerateStep::Stalled;
        }
        AccelerateStep::Running {
            rate: throttle_response(&self.gear),
            acceleration: acceleration(&self.gear),
        }
    }

    /// One tick of holding the brake: nothing with the engine off, else the
    /// rate moves towards the gear's coasting response.
    pub fn brake(&self) -> (step: Option<RateResponse>)
        ensures
            !self@.is_on ==> step is None,
            self@.is_on ==> step == Some(coast_response_of(self@.gear)),
    {
        if !self.is_on() {
            return None;
        }
        Some(coast_response(&self.gear))
    }

    /// One tick with no pedal pressed.
    pub fn idle_brake(&self) -> (step: IdleStep)
        ensures
            !self@.is_on ==> step == IdleStep::EngineOff,
            self@.is_on ==> step == (IdleStep::Running {
                deceleration: rolling_deceleration_of(self@.gear),
                rate: coast_response_of(self@.gear),
            }),
    {
        if !self.is_on() {
            return IdleStep::EngineOff;
        }
        IdleStep::Running {
            deceleration: rolling_deceleration(&self.gear),
            rate: coast_response(&self.gear),
        }
    }

    /// The rate limiters of a tick: the idle limiter in first gear and in
    /// parking, the maximum limiter always.
    pub fn goggle_rate(&self) -> (limits: RateLimits)
        ensures
            limits.idle == (self@.gear == ShifterGear::Drive(1) || self@.gear
                == ShifterGear::Parking),
            limits.max,
    {
        RateLimits {
            idle: self.gear == ShifterGear::Drive(1) || self.gear == ShifterGear::Parking,
            max: true,
        }
    }
}

impl Default for Vehicle {
    fn default() -> (vehicle: Vehicle)
        ensures
            !vehicle@.is_on,
            vehicle@.gear == ShifterGear::Parking,
    {
        Vehicle::new()
    }
}

/// Pressing the power switch twice with fuel in the tank brings the engine
/// back to the state it started in.
pub proof fn lemma_toggle_twice_restores_power(v: VehicleView)
    ensures
        toggled(toggled(v, false).0, false).0.is_on == v.is_on,
{
}

/// An engine that is off never starts on an empty tank, and a running
/// engine always stops.
pub proof fn lemma_toggle_needs_fuel(v: VehicleView, fuel_empty: bool)
    ensures
        toggled(v, fuel_empty).0.is_on <==> (!v.is_on && !fuel_empty),
        toggled(v, fuel_empty).0.is_on ==> toggled(v, fuel_empty).0.gear == v.gear,
{
}

/// The power switch: a running engine is turned off and the shifter parked,
/// whatever the gear and the fuel; an engine that is off stays off with an
/// empty tank, and otherwise starts in the gear it was left in.
pub proof fn lemma_power_switch(v: VehicleView, fuel_empty: bool)
    ensures
        v.is_on ==> toggled(v, fuel_empty).0 == (VehicleView {
            is_on: false,
            gear: ShifterGear::Parking,
        }) && toggled(v, fuel_empty).1 == PowerToggle::TurnedOff,
        !v.is_on && fuel_empty ==> toggled(v, fuel_empty).0 == v && toggled(v, fuel_empty).1
            == PowerToggle::NoFuel,
        !v.is_on && !fuel_empty ==> toggled(v, fuel_empty).0 == (VehicleView {
            is_on: true,
            gear: v.gear,
        }) && toggled(v, fuel_empty).1 == PowerToggle::TurnedOn,
{
}

} // verus!
