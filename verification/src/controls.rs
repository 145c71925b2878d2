use vstd::prelude::*;

verus! {

/// The highest engine speed that the throttle still raises.
pub const MAX_RPMS: i32 = 7300;

/// The change of engine speed per control update.
pub const RPM_STEP: i32 = 5;

/// The highest forward gear.
pub const TOP_GEAR: i32 = 5;

/// The engine of a driven wheel: its speed in revolutions per minute, the
/// selected gear (`-1` is reverse, `0` is neutral) and a braking setting.
#[derive(Clone, Copy, Debug, PartialEq, Eq)]
pub struct Engine {
    pub rpms: i32,
    pub gear: i32,
    pub breaking: i32,
}

/// A request to the gearbox.
#[derive(Clone, Copy, Debug, PartialEq, Eq)]
pub enum GearCommand {
    Upshift,
    Downshift,
    Reverse,
    Neutral,
    Hold,
}

/// Engine speed after one control update: raised by a step while the
/// throttle is held (up to the limit), lowered by a step otherwise (down to
/// zero).
pub open spec fn throttled_rpms(rpms: int, throttle: bool) -> int {
    if throttle {
        if rpms < MAX_RPMS { rpms + RPM_STEP } else { rpms }
    } else {
        if rpms > 0 { rpms - RPM_STEP } else { rpms }
    }
}

/// Gear after a gearbox command: up to the top gear, down to neutral (never
/// into reverse), straight to reverse, or straight to neutral.
pub open spec fn shifted_gear(gear: int, command: GearCommand) -> int {
    match command {
        GearCommand::Upshift => if gear < TOP_GEAR { gear + 1 } else { gear },
        GearCommand::Downshift => if gear > 0 { gear - 1 } else { gear },
        GearCommand::Reverse => -1,
        GearCommand::Neutral => 0,
        GearCommand::Hold => gear,
    }
}

/// An engine that the controls keep in range: a speed that is a whole number
/// of steps between zero and the limit, and a gear from reverse to the top.
pub open spec fn engine_in_range(engine: Engine) -> bool {
    &&& 0 <= engine.rpms <= MAX_RPMS
    &&& engine.rpms % RPM_STEP == 0
    &&& -1 <= engine.gear <= TOP_GEAR
}

impl Engine {
    /// Builds an engine from its speed, gear and braking setting.
    pub fn new(rpms: i32, gear: i32, breaking: i32) -> (engine: Self)
        ensures
            engine.rpms == rpms,
            engine.gear == gear,
            engine.breaking == breaking,
    {
        Engine { rpms, gear, breaking }
    }

    /// One throttle update: speeds up while the throttle is held, slows down
    /// otherwise.
    pub fn throttle(&mut self, held: bool)
        ensures
            final(self).rpms == throttled_rpms(old(self).rpms as int, held),
            final(self).gear == old(self).gear,
            final(self).breaking == old(self).breaking,
    {
        if held {
            if self.rpms < MAX_RPMS {
                self.rpms = self.rpms + RPM_STEP;
            }
        } else {
            if self.rpms > 0 {
                self.rpms = self.rpms - RPM_STEP;
            }
        }
    }

    /// Applies a gearbox command.
    pub fn shift(&mut self, command: GearCommand)
        ensures
            final(self).gear == shifted_gear(old(self).gear as int, command),
            final(self).rpms == old(self).rpms,
            final(self).breaking == old(self).breaking,
    {
        match command {
            GearCommand::Upshift => {
                if self.gear < TOP_GEAR {
                    self.gear = self.gear + 1;
                }
            },
            GearCommand::Downshift => {
                if self.gear > 0 {
                    self.gear = self.gear - 1;
                }
            },
            GearCommand::Reverse => {
                self.gear = -1;
            },
            GearCommand::Neutral => {
                self.gear = 0;
            },
            GearCommand::Hold => {},
        }
    }
}

/// What the keyboard holds or has just released in one frame.
#[derive(Clone, Copy, Debug, PartialEq, Eq)]
pub struct KeyboardControls {
    /// throttle key held
    pub throttle: bool,
    /// upshift key just released
    pub upshift: bool,
    /// downshift key just released
    pub downshift: bool,
    /// reverse key just released
    pub reverse: bool,
    /// neutral key just released
    pub neutral: bool,
    /// steer-left key held
    pub steer_left: bool,
    /// steer-right key held
    pub steer_right: bool,
    /// hard-brake key held
    pub hard_brake: bool,
    /// soft-brake key held
    pub soft_brake: bool,
}

/// Where a gamepad's steering stick points, past its dead zone.
#[derive(Clone, Copy, Debug, PartialEq, Eq)]
pub enum StickDirection {
    Left,
    Centered,
    Right,
}

/// What one gamepad holds or has just released in one frame.
#[derive(Clone, Copy, Debug, PartialEq, Eq)]
pub struct GamepadControls {
    /// throttle button held
    pub throttle: bool,
    /// upshift trigger just released
    pub upshift: bool,
    /// downshift trigger just released
    pub downshift: bool,
    /// reverse button just released
    pub reverse: bool,
    /// neutral trigger just released
    pub neutral: bool,
    /// hard-brake button held
    pub hard_brake: bool,
    /// soft-brake button just released
    pub soft_brake: bool,
    /// steering stick
    pub stick: StickDirection,
}

/// The gearbox command of one input device: upshift wins over downshift,
/// which wins over reverse, which wins over neutral.
pub open spec fn gear_command_of(upshift: bool, downshift: bool, reverse: bool, neutral: bool) -> GearCommand {
    if upshift {
        GearCommand::Upshift
    } else if downshift {
        GearCommand::Downshift
    } else if reverse {
        GearCommand::Reverse
    } else if neutral {
        GearCommand::Neutral
    } else {
        GearCommand::Hold
    }
}

/// Picks the gearbox command of one input device.
pub fn gear_command(upshift: bool, downshift: bool, reverse: bool, neutral: bool) -> (command: GearCommand)
    ensures
        command == gear_command_of(upshift, downshift, reverse, neutral),
{
    if upshift {
        GearCommand::Upshift
    } else if downshift {
        GearCommand::Downshift
    } else if reverse {
        GearCommand::Reverse
    } else if neutral {
        GearCommand::Neutral
    } else {
        GearCommand::Hold
    }
}

/// Some gamepad holds its throttle button.
pub open spec fn any_pad_throttle(pads: Seq<GamepadControls>) -> bool {
    exists|i: int| 0 <= i < pads.len() && #[trigger] pads[i].throttle
}

/// Gear after the gamepads' gearbox commands, first gamepad first.
pub open spec fn pads_gear(gear: int, pads: Seq<GamepadControls>) -> int
    decreases pads.len(),
{
    if pads.len() == 0 {
        gear
    } else {
        let pad = pads.last();
        shifted_gear(
            pads_gear(gear, pads.drop_last()),
            gear_command_of(pad.upshift, pad.downshift, pad.reverse, pad.neutral),
        )
    }
}

/// Engine speed after one input device's throttle update: a device that
/// holds its throttle speeds the engine up; one that does not slows it down,
/// unless some device holds its throttle in this frame, in which case it
/// leaves the speed.
pub open spec fn device_rpms(rpms: int, holds: bool, any_holds: bool) -> int {
    if holds {
        throttled_rpms(rpms, true)
    } else if !any_holds {
        throttled_rpms(rpms, false)
    } else {
        rpms
    }
}

/// Engine speed after the gamepads' throttle updates, first gamepad first.
pub open spec fn pads_rpms(rpms: int, pads: Seq<GamepadControls>, any_holds: bool) -> int
    decreases pads.len(),
{
    if pads.len() == 0 {
        rpms
    } else {
        device_rpms(pads_rpms(rpms, pads.drop_last(), any_holds), pads.last().throttle, any_holds)
    }
}

/// Engine speed after one frame of controls: the keyboard's throttle update,
/// then one update per gamepad.
pub open spec fn controlled_rpms(rpms: int, keyboard: KeyboardControls, pads: Seq<GamepadControls>) -> int {
    let any_holds = keyboard.throttle || any_pad_throttle(pads);
    pads_rpms(device_rpms(rpms, keyboard.throttle, any_holds), pads, any_holds)
}

/// Gear after one frame of controls: the keyboard's command, then one
/// command per gamepad.
pub open spec fn controlled_gear(gear: int, keyboard: KeyboardControls, pads: Seq<GamepadControls>) -> int {
    pads_gear(
        shifted_gear(
            gear,
            gear_command_of(keyboard.upshift, keyboard.downshift, keyboard.reverse, keyboard.neutral),
        ),
        pads,
    )
}

/// Applies one frame of keyboard and gamepad controls to an engine.
pub fn controller_step(engine: &mut Engine, keyboard: &KeyboardControls, gamepads: &Vec<GamepadControls>)
    ensures
        final(engine).rpms == controlled_rpms(old(engine).rpms as int, *keyboard, gamepads@),
        final(engine).gear == controlled_gear(old(engine).gear as int, *keyboard, gamepads@),
        final(engine).breaking == old(engine).breaking,
{
    let mut held = keyboard.throttle;
    let n = gamepads.len();
    for i in 0..n
        invariant
            n == gamepads@.len(),
            held == (keyboard.throttle || exists|j: int| 0 <= j < i && #[trigger] gamepads@[j].throttle),
    {
        if gamepads[i].throttle {
            held = true;
        }
        proof {
            if held && !keyboard.throttle && !gamepads@[i as int].throttle {
                let j = choose|j: int| 0 <= j < i && #[trigger] gamepads@[j].throttle;
                assert(0 <= j < i + 1 && gamepads@[j].throttle);
            }
        }
    }
    let ghost any_holds = held;
    if keyboard.throttle || !held {
        engine.throttle(keyboard.throttle);
    }
    let ghost rpms0 = engine.rpms as int;
    for i in 0..n
        invariant
            n == gamepads@.len(),
            any_holds == held,
            engine.rpms == pads_rpms(rpms0, gamepads@.take(i as int), any_holds),
            engine.gear == old(engine).gear,
            engine.breaking == old(engine).breaking,
    {
        proof {
            assert(gamepads@.take(i + 1).drop_last() =~= gamepads@.take(i as int));
        }
        let pad_holds = gamepads[i].throttle;
        if pad_holds || !held {
            engine.throttle(pad_holds);
        }
    }
    proof {
        assert(gamepads@.take(n as int) =~= gamepads@);
    }
    engine.shift(gear_command(keyboard.upshift, keyboard.downshift, keyboard.reverse, keyboard.neutral));
    let ghost gear0 = engine.gear as int;
    for i in 0..n
        invariant
            n == gamepads@.len(),
            engine.gear == pads_gear(gear0, gamepads@.take(i as int)),
            engine.rpms == controlled_rpms(old(engine).rpms as int, *keyboard, gamepads@),
            engine.breaking == old(engine).breaking,
    {
        proof {
            assert(gamepads@.take(i + 1).drop_last() =~= gamepads@.take(i as int));
        }
        let pad = gamepads[i];
        engine.shift(gear_command(pad.upshift, pad.downshift, pad.reverse, pad.neutral));
    }
    proof {
        assert(gamepads@.take(n as int) =~= gamepads@);
    }
}

/// Steering steps asked by a stick: pointing right turns one step clockwise
/// (negative), pointing left one step the other way.
pub open spec fn stick_steps(stick: StickDirection) -> int {
    match stick {
        StickDirection::Left => 1,
        StickDirection::Centered => 0,
        StickDirection::Right => -1,
    }
}

/// Steering steps asked by the keyboard: left wins over right.
pub open spec fn keyboard_steps(keyboard: KeyboardControls) -> int {
    if keyboard.steer_left {
        1
    } else if keyboard.steer_right {
        -1
    } else {
        0
    }
}

/// Steering steps asked by the gamepads together.
pub open spec fn pads_steps(pads: Seq<GamepadControls>) -> int
    decreases pads.len(),
{
    if pads.len() == 0 {
        0
    } else {
        pads_steps(pads.drop_last()) + stick_steps(pads.last().stick)
    }
}

/// The steering angle of one frame, counted in steps of the fixed steering
/// increment: the keyboard's step plus one step per gamepad whose stick is
/// off centre.
pub fn steer_steps(keyboard: &KeyboardControls, gamepads: &Vec<GamepadControls>) -> (steps: i64)
    requires
        gamepads@.len() < i64::MAX,
    ensures
        steps == keyboard_steps(*keyboard) + pads_steps(gamepads@),
{
    let mut steps: i64 = if keyboard.steer_left {
        1
    } else if keyboard.steer_right {
        -1
    } else {
        0
    };
    let n = gamepads.len();
    for i in 0..n
        invariant
            n == gamepads@.len(),
            n < i64::MAX,
            steps == keyboard_steps(*keyboard) + pads_steps(gamepads@.take(i as int)),
            -1 - i <= steps <= 1 + i,
    {
        proof {
            assert(gamepads@.take(i + 1).drop_last() =~= gamepads@.take(i as int));
        }
        match gamepads[i].stick {
            StickDirection::Left => {
                steps = steps + 1;
            },
            StickDirection::Centered => {},
            StickDirection::Right => {
                steps = steps - 1;
            },
        }
    }
    proof {
        assert(gamepads@.take(n as int) =~= gamepads@);
    }
    steps
}

/// How hard the wheels are braked in a frame.
#[derive(Clone, Copy, Debug, PartialEq, Eq)]
pub enum BrakeLevel {
    Released,
    Soft,
    Hard,
}

/// The keyboard's brake: the hard brake wins over the soft one.
pub open spec fn keyboard_brake(keyboard: KeyboardControls) -> BrakeLevel {
    if keyboard.hard_brake {
        BrakeLevel::Hard
    } else if keyboard.soft_brake {
        BrakeLevel::Soft
    } else {
        BrakeLevel::Released
    }
}

/// The brake after the gamepads, first gamepad first: a gamepad that asks
/// for a brake replaces the level so far (hard winning over soft), one that
/// asks for none leaves it.
pub open spec fn pads_brake(level: BrakeLevel, pads: Seq<GamepadControls>) -> BrakeLevel
    decreases pads.len(),
{
    if pads.len() == 0 {
        level
    } else {
        let before = pads_brake(level, pads.drop_last());
        let pad = pads.last();
        if pad.hard_brake {
            BrakeLevel::Hard
        } else if pad.soft_brake {
            BrakeLevel::Soft
        } else {
            before
        }
    }
}

/// The brake level of one frame of controls.
pub fn brake_level(keyboard: &KeyboardControls, gamepads: &Vec<GamepadControls>) -> (level: BrakeLevel)
    ensures
        level == pads_brake(keyboard_brake(*keyboard), gamepads@),
{
    let mut level = if keyboard.hard_brake {
        BrakeLevel::Hard
    } else if keyboard.soft_brake {
        BrakeLevel::Soft
    } else {
        BrakeLevel::Released
    };
    let n = gamepads.len();
    for i in 0..n
        invariant
            n == gamepads@.len(),
            level == pads_brake(keyboard_brake(*keyboard), gamepads@.take(i as int)),
    {
        proof {
            assert(gamepads@.take(i + 1).drop_last() =~= gamepads@.take(i as int));
        }
        if gamepads[i].hard_brake {
            level = BrakeLevel::Hard;
        } else if gamepads[i].soft_brake {
            level = BrakeLevel::Soft;
        }
    }
    proof {
        assert(gamepads@.take(n as int) =~= gamepads@);
    }
    level
}

/// What the brake does to a driven wheel.
#[derive(Clone, Copy, Debug, PartialEq, Eq)]
pub enum BrakeAction {
    /// stop the wheel at once
    Stop,
    /// take the soft-brake decrement off the wheel's speed
    SlowDown,
    /// leave the wheel's speed
    Keep,
}

/// How a driven wheel turns, measured against the soft-brake decrement.
#[derive(Clone, Copy, Debug, PartialEq, Eq)]
pub enum WheelRoll {
    /// standing or rolling backwards
    NotForward,
    /// rolling forwards no faster than the soft-brake decrement
    SlowForward,
    /// rolling forwards faster than the soft-brake decrement
    FastForward,
}

/// The brake's action on a driven wheel: the hard brake stops it; the soft
/// brake slows a wheel that rolls forwards faster than its decrement, stops
/// one that rolls forwards slower (so that it never turns backwards), and
/// leaves one that does not roll forwards; a released brake leaves the wheel.
pub fn brake_action(level: BrakeLevel, roll: WheelRoll) -> (action: BrakeAction)
    ensures
        level == BrakeLevel::Hard ==> action == BrakeAction::Stop,
        level == BrakeLevel::Soft ==> action == (match roll {
            WheelRoll::NotForward => BrakeAction::Keep,
            WheelRoll::SlowForward => BrakeAction::Stop,
            WheelRoll::FastForward => BrakeAction::SlowDown,
        }),
        level == BrakeLevel::Released ==> action == BrakeAction::Keep,
{
    match level {
        BrakeLevel::Hard => BrakeAction::Stop,
        BrakeLevel::Soft => match roll {
            WheelRoll::NotForward => BrakeAction::Keep,
            WheelRoll::SlowForward => BrakeAction::Stop,
            WheelRoll::FastForward => BrakeAction::SlowDown,
        },
        BrakeLevel::Released => BrakeAction::Keep,
    }
}

} // verus!
