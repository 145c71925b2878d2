use vstd::prelude::*;
use crate::controls::Engine;

verus! {

/// Engine torque in newton-metres at a given engine speed: zero when the
/// engine stands, then rising by bands of a thousand revolutions up to the
/// peak band, and zero past the last band.
pub open spec fn torque_for(rpms: int) -> int {
    if 1 <= rpms <= 2999 {
        85
    } else if 3000 <= rpms <= 3999 {
        92
    } else if 4000 <= rpms <= 4999 {
        98
    } else if 5000 <= rpms <= 5999 {
        105
    } else if 6000 <= rpms <= 6999 {
        109
    } else if 7000 <= rpms <= 7999 {
        100
    } else {
        0
    }
}

/// Gearbox ratio of a gear, in thousandths: falling from first to fifth
/// gear, the first gear's ratio negated in reverse, zero in neutral and in
/// any other gear.
pub open spec fn ratio_milli_for(gear: int) -> int {
    if gear == 1 {
        3587
    } else if gear == 2 {
        2022
    } else if gear == 3 {
        1384
    } else if gear == 4 {
        1000
    } else if gear == 5 {
        861
    } else if gear == -1 {
        -3587
    } else {
        0
    }
}

/// Looks up the engine torque at a given engine speed.
pub fn engine_torque(rpms: i32) -> (torque: u32)
    ensures
        torque == torque_for(rpms as int),
{
    if 1 <= rpms && rpms <= 2999 {
        85
    } else if 3000 <= rpms && rpms <= 3999 {
        92
    } else if 4000 <= rpms && rpms <= 4999 {
        98
    } else if 5000 <= rpms && rpms <= 5999 {
        105
    } else if 6000 <= rpms && rpms <= 6999 {
        109
    } else if 7000 <= rpms && rpms <= 7999 {
        100
    } else {
        0
    }
}

/// Looks up the gearbox ratio of a gear, in thousandths.
pub fn gear_ratio_milli(gear: i32) -> (ratio: i32)
    ensures
        ratio == ratio_milli_for(gear as int),
{
    match gear {
        1 => 3587,
        2 => 2022,
        3 => 1384,
        4 => 1000,
        5 => 861,
        -1 => -3587,
        _ => 0,
    }
}

/// What a driven wheel is asked to do in a frame.
#[derive(Clone, Copy, Debug, PartialEq, Eq)]
pub enum DriveTarget {
    /// hold a wheel speed of zero
    Idle,
    /// hold the wheel speed that the torque gives through the gearbox ratio
    /// (in thousandths) and the differential
    Drive { torque: u32, ratio_milli: i32 },
}

impl Engine {
    /// The drive target of a wheel powered by this engine: idle in neutral
    /// (and below reverse), otherwise the torque at the current speed through
    /// the current gear's ratio, which is negative in reverse so that the
    /// wheel is driven backwards.
    pub fn drive_target(&self) -> (target: DriveTarget)
        ensures
            self.gear < 1 && self.gear != -1 ==> target == DriveTarget::Idle,
            self.gear >= 1 || self.gear == -1 ==> target == (DriveTarget::Drive {
                torque: torque_for(self.rpms as int) as u32,
                ratio_milli: ratio_milli_for(self.gear as int) as i32,
            }),
    {
        if self.gear < 1 && self.gear != -1 {
            DriveTarget::Idle
        } else {
            DriveTarget::Drive { torque: engine_torque(self.rpms), ratio_milli: gear_ratio_milli(self.gear) }
        }
    }
}

} // verus!
