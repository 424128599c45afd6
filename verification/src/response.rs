use vstd::prelude::*;

use crate::gear::ShifterGear;

verus! {

/// The quantity that the engine's target rate follows, on top of the idle rate.
#[derive(Clone, Copy, Debug, PartialEq, Eq, Structural)]
pub enum RateSource {
    /// The target is the idle rate itself.
    Idle,
    /// The target rises with the throttle.
    Throttle,
    /// The target rises with the speed.
    Speed,
}

/// How the engine's target rate is made up in a gear: the idle rate plus the
/// `source` quantity times `per_mille / 1000`.
#[derive(Clone, Copy, Debug, PartialEq, Eq, Structural)]
pub struct RateResponse {
    pub source: RateSource,
    pub per_mille: u32,
}

/// The target-rate response while the throttle is applied.
pub open spec fn throttle_response_of(gear: ShifterGear) -> RateResponse {
    match gear {
        ShifterGear::Parking => RateResponse { source: RateSource::Throttle, per_mille: 4000 },
        ShifterGear::Neutral => RateResponse { source: RateSource::Throttle, per_mille: 4000 },
        ShifterGear::Drive(n) => if n == 1 {
            RateResponse { source: RateSource::Throttle, per_mille: 4300 }
        } else if n == 2 {
            RateResponse { source: RateSource::Speed, per_mille: 120 }
        } else if n == 3 {
            RateResponse { source: RateSource::Speed, per_mille: 50 }
        } else if n == 4 {
            RateResponse { source: RateSource::Speed, per_mille: 30 }
        } else if n == 5 {
            RateResponse { source: RateSource::Speed, per_mille: 23 }
        } else if n == 6 {
            RateResponse { source: RateSource::Speed, per_mille: 11 }
        } else {
            RateResponse { source: RateSource::Speed, per_mille: 20 }
        },
    }
}

/// The target-rate response while braking or rolling without throttle.
pub open spec fn coast_response_of(gear: ShifterGear) -> RateResponse {
    match gear {
        ShifterGear::Drive(n) => if n == 1 {
            RateResponse { source: RateSource::Speed, per_mille: 80 }
        } else if n == 2 {
            RateResponse { source: RateSource::Speed, per_mille: 55 }
        } else if n == 3 {
            RateResponse { source: RateSource::Speed, per_mille: 40 }
        } else if n == 4 {
            RateResponse { source: RateSource::Speed, per_mille: 30 }
        } else if n == 5 {
            RateResponse { source: RateSource::Speed, per_mille: 20 }
        } else if n == 6 {
            RateResponse { source: RateSource::Speed, per_mille: 15 }
        } else {
            RateResponse { source: RateSource::Idle, per_mille: 0 }
        },
        _ => RateResponse { source: RateSource::Idle, per_mille: 0 },
    }
}

/// The acceleration at full throttle, in thousandths of a speed unit per
/// second: it falls from first to top gear and is zero outside the forward
/// gears `1..=6`.
pub open spec fn acceleration_of(gear: ShifterGear) -> u32 {
    match gear {
        ShifterGear::Drive(n) => if n == 1 {
            32000
        } else if n == 2 {
            23000
        } else if n == 3 {
            20000
        } else if n == 4 {
            15000
        } else if n == 5 {
            11000
        } else if n == 6 {
            8000
        } else {
            0
        },
        _ => 0,
    }
}

/// The deceleration while rolling with the engine on and no pedal pressed,
/// in thousandths of a speed unit per second.
pub open spec fn rolling_deceleration_of(gear: ShifterGear) -> u32 {
    match gear {
        ShifterGear::Parking => 20000,
        ShifterGear::Neutral => 2000,
        ShifterGear::Drive(n) => if n == 1 {
            6000
        } else if n == 2 {
            5000
        } else if n == 3 {
            4000
        } else if n == 4 {
            3000
        } else if n == 5 {
            2500
        } else if n == 6 {
            2000
        } else {
            3000
        },
    }
}

/// The target-rate response of `gear` while the throttle is applied.
pub fn throttle_response(gear: &ShifterGear) -> (response: RateResponse)
    ensures
        response == throttle_response_of(*gear),
{
    match *gear {
        ShifterGear::Neutral | ShifterGear::Parking => RateResponse {
            source: RateSource::Throttle,
            per_mille: 4000,
        },
        ShifterGear::Drive(1) => RateResponse { source: RateSource::Throttle, per_mille: 4300 },
        ShifterGear::Drive(2) => RateResponse { source: RateSource::Speed, per_mille: 120 },
        ShifterGear::Drive(3) => RateResponse { source: RateSource::Speed, per_mille: 50 },
        ShifterGear::Drive(4) => RateResponse { source: RateSource::Speed, per_mille: 30 },
        ShifterGear::Drive(5) => RateResponse { source: RateSource::Speed, per_mille: 23 },
        ShifterGear::Drive(6) => RateResponse { source: RateSource::Speed, per_mille: 11 },
        _ => RateResponse { source: RateSource::Speed, per_mille: 20 },
    }
}

/// The target-rate response of `gear` while braking or rolling.
pub fn coast_response(gear: &ShifterGear) -> (response: RateResponse)
    ensures
        response == coast_response_of(*gear),
{
    match *gear {
        ShifterGear::Parking | ShifterGear::Neutral => RateResponse {
            source: RateSource::Idle,
            per_mille: 0,
        },
        ShifterGear::Drive(1) => RateResponse { source: RateSource::Speed, per_mille: 80 },
        ShifterGear::Drive(2) => RateResponse { source: RateSource::Speed, per_mille: 55 },
        ShifterGear::Drive(3) => RateResponse { source: RateSource::Speed, per_mille: 40 },
        ShifterGear::Drive(4) => RateResponse { source: RateSource::Speed, per_mille: 30 },
        ShifterGear::Drive(5) => RateResponse { source: RateSource::Speed, per_mille: 20 },
        ShifterGear::Drive(6) => RateResponse { source: RateSource::Speed, per_mille: 15 },
        _ => RateResponse { source: RateSource::Idle, per_mille: 0 },
    }
}

/// The full-throttle acceleration of `gear`.
pub fn acceleration(gear: &ShifterGear) -> (per_mille: u32)
    ensures
        per_mille == acceleration_of(*gear),
{
    match *gear {
        ShifterGear::Drive(1) => 32000,
        ShifterGear::Drive(2) => 23000,
        ShifterGear::Drive(3) => 20000,
        ShifterGear::Drive(4) => 15000,
        ShifterGear::Drive(5) => 11000,
        ShifterGear::Drive(6) => 8000,
        _ => 0,
    }
}

/// The rolling deceleration of `gear`.
pub fn rolling_deceleration(gear: &ShifterGear) -> (per_mille: u32)
    ensures
        per_mille == rolling_deceleration_of(*gear),
{
    match *gear {
        ShifterGear::Parking => 20000,
        ShifterGear::Neutral => 2000,
        ShifterGear::Drive(1) => 6000,
        ShifterGear::Drive(2) => 5000,
        ShifterGear::Drive(3) => 4000,
        ShifterGear::Drive(4) => 3000,
        ShifterGear::Drive(5) => 2500,
        ShifterGear::Drive(6) => 2000,
        _ => 3000,
    }
}

/// Higher forward gears never accelerate harder, and never make the engine
/// respond more to speed while coasting, than lower ones.
pub proof fn lemma_higher_gears_respond_less(low: u8, high: u8)
    requires
        1 <= low <= high <= crate::gear::TOP_GEAR,
    ensures
        acceleration_of(ShifterGear::Drive(high)) <= acceleration_of(ShifterGear::Drive(low)),
        coast_response_of(ShifterGear::Drive(high)).per_mille <= coast_response_of(
            ShifterGear::Drive(low),
        ).per_mille,
        rolling_deceleration_of(ShifterGear::Drive(high)) <= rolling_deceleration_of(
            ShifterGear::Drive(low),
        ),
{
}

} // verus!
