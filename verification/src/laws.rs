use vstd::prelude::*;
use crate::controls::{
    Engine, GearCommand, KeyboardControls, GamepadControls, BrakeLevel, MAX_RPMS, RPM_STEP, TOP_GEAR,
    throttled_rpms, shifted_gear, engine_in_range, gear_command_of, pads_gear, pads_rpms, device_rpms,
    controlled_rpms, controlled_gear, any_pad_throttle, keyboard_steps, pads_steps, pads_brake,
    StickDirection, keyboard_brake,
};
use crate::drivetrain::{torque_for, ratio_milli_for};

verus! {

proof fn lemma_pads_keep_gear_range(gear: int, pads: Seq<GamepadControls>)
    requires
        -1 <= gear <= TOP_GEAR,
    ensures
        -1 <= pads_gear(gear, pads) <= TOP_GEAR,
    decreases pads.len(),
{
    if pads.len() > 0 {
        lemma_pads_keep_gear_range(gear, pads.drop_last());
    }
}

proof fn lemma_pads_keep_rpms_range(rpms: int, pads: Seq<GamepadControls>, any_holds: bool)
    requires
        0 <= rpms <= MAX_RPMS,
        rpms % (RPM_STEP as int) == 0,
    ensures
        0 <= pads_rpms(rpms, pads, any_holds) <= MAX_RPMS,
        pads_rpms(rpms, pads, any_holds) % (RPM_STEP as int) == 0,
    decreases pads.len(),
{
    if pads.len() > 0 {
        lemma_pads_keep_rpms_range(rpms, pads.drop_last(), any_holds);
    }
}

/// A frame of controls keeps an engine in range: its speed stays a whole
/// number of steps between zero and the limit, and its gear between reverse
/// and the top gear, whatever the keyboard and the gamepads ask.
pub proof fn lemma_controls_keep_engine_in_range(
    engine: Engine,
    keyboard: KeyboardControls,
    pads: Seq<GamepadControls>,
)
    requires
        engine_in_range(engine),
    ensures
        0 <= controlled_rpms(engine.rpms as int, keyboard, pads) <= MAX_RPMS,
        controlled_rpms(engine.rpms as int, keyboard, pads) % (RPM_STEP as int) == 0,
        -1 <= controlled_gear(engine.gear as int, keyboard, pads) <= TOP_GEAR,
{
    let kb_command = gear_command_of(keyboard.upshift, keyboard.downshift, keyboard.reverse, keyboard.neutral);
    let any_holds = keyboard.throttle || any_pad_throttle(pads);
    lemma_pads_keep_rpms_range(device_rpms(engine.rpms as int, keyboard.throttle, any_holds), pads, any_holds);
    lemma_pads_keep_gear_range(shifted_gear(engine.gear as int, kb_command), pads);
}

/// An upshift is undone by a downshift, from neutral up to the gear below
/// the top; a downshift is undone by an upshift, from first gear up to the
/// top gear.
pub proof fn lemma_shift_up_then_down(gear: int)
    ensures
        0 <= gear < TOP_GEAR ==> shifted_gear(shifted_gear(gear, GearCommand::Upshift), GearCommand::Downshift) == gear,
        1 <= gear <= TOP_GEAR ==> shifted_gear(shifted_gear(gear, GearCommand::Downshift), GearCommand::Upshift) == gear,
{
}

/// The gearbox saturates: an upshift in the top gear keeps it, a downshift
/// never leaves neutral or a forward gear for reverse, an upshift out of
/// reverse lands in neutral, and reverse or neutral are reached from any gear.
pub proof fn lemma_shift_limits(gear: int)
    ensures
        shifted_gear(TOP_GEAR as int, GearCommand::Upshift) == TOP_GEAR,
        gear >= 0 ==> shifted_gear(gear, GearCommand::Downshift) >= 0,
        shifted_gear(-1, GearCommand::Upshift) == 0,
        shifted_gear(gear, GearCommand::Reverse) == -1,
        shifted_gear(gear, GearCommand::Neutral) == 0,
        shifted_gear(gear, GearCommand::Hold) == gear,
{
}

/// Holding the throttle for one update and releasing it for the next leaves
/// the engine speed where it was, below the limit; releasing and then holding
/// does the same above zero.
pub proof fn lemma_throttle_then_release(rpms: int)
    ensures
        0 <= rpms < MAX_RPMS ==> throttled_rpms(throttled_rpms(rpms, true), false) == rpms,
        0 < rpms < MAX_RPMS + RPM_STEP ==> throttled_rpms(throttled_rpms(rpms, false), true) == rpms,
{
}

/// The engine speed never passes the limit under the throttle, and never
/// drops below zero without it, from a speed in range.
pub proof fn lemma_throttle_limits(rpms: int, held: bool)
    requires
        0 <= rpms <= MAX_RPMS,
        rpms % (RPM_STEP as int) == 0,
    ensures
        0 <= throttled_rpms(rpms, held) <= MAX_RPMS,
        throttled_rpms(MAX_RPMS as int, true) == MAX_RPMS,
        throttled_rpms(0, false) == 0,
{
}

/// The forward gears have positive ratios that fall from each gear to the
/// next: a higher gear gives a higher wheel speed for the same torque.
pub proof fn lemma_ratio_falls_with_gear(lower: int, higher: int)
    requires
        1 <= lower < higher <= TOP_GEAR,
    ensures
        ratio_milli_for(lower) > ratio_milli_for(higher) > 0,
{
}

/// The engine gives torque exactly when it turns and is below the end of the
/// last band, and never more than the peak torque.
pub proof fn lemma_torque_bounds(rpms: int)
    ensures
        (torque_for(rpms) > 0) <==> (1 <= rpms <= 7999),
        0 <= torque_for(rpms) <= 109,
        torque_for(rpms) == 109 <==> 6000 <= rpms <= 6999,
{
}

proof fn lemma_pads_steps_bounded(pads: Seq<GamepadControls>)
    ensures
        -pads.len() <= pads_steps(pads) <= pads.len(),
    decreases pads.len(),
{
    if pads.len() > 0 {
        lemma_pads_steps_bounded(pads.drop_last());
    }
}

/// The steering of a frame is at most one step per input device either way:
/// the keyboard's step and one per gamepad.
pub proof fn lemma_steering_bounded(keyboard: KeyboardControls, pads: Seq<GamepadControls>)
    ensures
        -1 - pads.len() <= keyboard_steps(keyboard) + pads_steps(pads) <= 1 + pads.len(),
{
    lemma_pads_steps_bounded(pads);
}

/// Gamepads that ask for no brake leave the keyboard's brake level, and
/// gamepads that all hold the hard brake brake hard.
pub proof fn lemma_brake_decided_by_last_request(level: BrakeLevel, pads: Seq<GamepadControls>)
    ensures
        (forall|i: int| 0 <= i < pads.len() ==> !(#[trigger] pads[i]).hard_brake && !pads[i].soft_brake)
            ==> pads_brake(level, pads) == level,
        (pads.len() > 0 && forall|i: int| 0 <= i < pads.len() ==> (#[trigger] pads[i]).hard_brake)
            ==> pads_brake(level, pads) == BrakeLevel::Hard,
    decreases pads.len(),
{
    if pads.len() > 0 {
        lemma_brake_decided_by_last_request(level, pads.drop_last());
        assert(pads.last() == pads[pads.len() - 1]);
        if forall|i: int| 0 <= i < pads.len() ==> !(#[trigger] pads[i]).hard_brake && !pads[i].soft_brake {
            assert forall|i: int| 0 <= i < pads.drop_last().len() implies !(#[trigger] pads.drop_last()[i]).hard_brake
                && !pads.drop_last()[i].soft_brake by {
                assert(pads.drop_last()[i] == pads[i]);
            }
        }
    }
}

proof fn lemma_pads_never_slow(rpms: int, pads: Seq<GamepadControls>)
    ensures
        pads_rpms(rpms, pads, true) >= rpms,
    decreases pads.len(),
{
    if pads.len() > 0 {
        lemma_pads_never_slow(rpms, pads.drop_last());
    }
}

proof fn lemma_idle_pads_slow_down(rpms: int, pads: Seq<GamepadControls>)
    requires
        0 <= rpms,
        rpms % (RPM_STEP as int) == 0,
        !any_pad_throttle(pads),
    ensures
        pads_rpms(rpms, pads, false) == if rpms - RPM_STEP * pads.len() > 0 { rpms - RPM_STEP * pads.len() } else { 0 },
    decreases pads.len(),
{
    if pads.len() > 0 {
        assert(!any_pad_throttle(pads.drop_last())) by {
            if any_pad_throttle(pads.drop_last()) {
                let j = choose|j: int| 0 <= j < pads.drop_last().len() && #[trigger] pads.drop_last()[j].throttle;
                assert(pads[j].throttle);
            }
        }
        lemma_idle_pads_slow_down(rpms, pads.drop_last());
        assert(!pads[pads.len() - 1].throttle);
    }
}

/// The throttle of one frame: while the keyboard or any gamepad holds its
/// throttle, the engine never slows down, and it speeds up below the limit
/// when the keyboard holds it, whatever the other gamepads do; while no
/// device holds it, every device (the keyboard and each gamepad) takes one
/// step off the speed, down to zero.
pub proof fn lemma_throttle_of_a_frame(rpms: int, keyboard: KeyboardControls, pads: Seq<GamepadControls>)
    requires
        0 <= rpms <= MAX_RPMS,
        rpms % (RPM_STEP as int) == 0,
    ensures
        (keyboard.throttle || any_pad_throttle(pads)) ==> controlled_rpms(rpms, keyboard, pads) >= rpms,
        keyboard.throttle && rpms < MAX_RPMS ==> controlled_rpms(rpms, keyboard, pads) >= rpms + RPM_STEP,
        !(keyboard.throttle || any_pad_throttle(pads)) ==> controlled_rpms(rpms, keyboard, pads) == if rpms
            - RPM_STEP * (pads.len() + 1) > 0 {
            rpms - RPM_STEP * (pads.len() + 1)
        } else {
            0
        },
{
    let any_holds = keyboard.throttle || any_pad_throttle(pads);
    if any_holds {
        lemma_pads_never_slow(device_rpms(rpms, keyboard.throttle, true), pads);
    } else {
        lemma_idle_pads_slow_down(device_rpms(rpms, false, false), pads);
    }
}

/// Reverse drives the wheel backwards: its ratio is the first gear's,
/// negated; neutral gives no drive.
pub proof fn lemma_reverse_drives_backwards()
    ensures
        ratio_milli_for(-1) == -ratio_milli_for(1),
        ratio_milli_for(-1) < 0,
        ratio_milli_for(0) == 0,
{
}

/// The number of gamepads that hold their throttle button.
pub open spec fn pads_holding_throttle(pads: Seq<GamepadControls>) -> nat
    decreases pads.len(),
{
    if pads.len() == 0 {
        0
    } else {
        pads_holding_throttle(pads.drop_last()) + if pads.last().throttle { 1nat } else { 0nat }
    }
}

proof fn lemma_holding_pads_raise(rpms: int, pads: Seq<GamepadControls>)
    requires
        rpms + RPM_STEP * pads_holding_throttle(pads) <= MAX_RPMS,
    ensures
        pads_rpms(rpms, pads, true) == rpms + RPM_STEP * pads_holding_throttle(pads),
    decreases pads.len(),
{
    if pads.len() > 0 {
        lemma_holding_pads_raise(rpms, pads.drop_last());
    }
}

/// The throttle raises the engine speed by one step per device that holds
/// it (the keyboard's W and each gamepad's South button), as long as the
/// speed stays within the limit; in particular a gamepad alone gets a
/// standing engine going, one step per frame.
pub proof fn lemma_throttle_steps_per_holding_device(rpms: int, keyboard: KeyboardControls, pads: Seq<GamepadControls>)
    requires
        keyboard.throttle || any_pad_throttle(pads),
        rpms + RPM_STEP * ((if keyboard.throttle { 1int } else { 0int }) + pads_holding_throttle(pads)) <= MAX_RPMS,
    ensures
        controlled_rpms(rpms, keyboard, pads) == rpms + RPM_STEP * ((if keyboard.throttle { 1int } else { 0int })
            + pads_holding_throttle(pads)),
        !keyboard.throttle && pads.len() == 1 && pads[0].throttle && rpms == 0 ==> controlled_rpms(rpms, keyboard, pads)
            == RPM_STEP,
{
    let first = if keyboard.throttle { rpms + RPM_STEP } else { rpms };
    lemma_holding_pads_raise(first, pads);
    if !keyboard.throttle && pads.len() == 1 && pads[0].throttle {
        assert(pads.drop_last().len() == 0);
        assert(pads_holding_throttle(pads.drop_last()) == 0);
        assert(pads.last() == pads[0]);
        assert(pads_holding_throttle(pads) == 1);
    }
}

/// Each gearbox command moves the gear by the rule of the gearbox: an
/// upshift below the top gear raises it by exactly one (reverse to neutral,
/// neutral to first, and so on up to fifth), a downshift above neutral lowers
/// it by exactly one, reverse selects gear -1 and neutral gear 0.
pub proof fn lemma_shift_steps(gear: int)
    ensures
        -1 <= gear < TOP_GEAR ==> shifted_gear(gear, GearCommand::Upshift) == gear + 1,
        0 < gear <= TOP_GEAR ==> shifted_gear(gear, GearCommand::Downshift) == gear - 1,
        gear >= TOP_GEAR ==> shifted_gear(gear, GearCommand::Upshift) == gear,
        gear <= 0 ==> shifted_gear(gear, GearCommand::Downshift) == gear,
{
}

/// A gamepad's gearbox command does to the gear what the same command from
/// the keyboard does.
pub proof fn lemma_gamepad_shifts_like_keyboard(
    gear: int,
    idle_keyboard: KeyboardControls,
    keyboard: KeyboardControls,
    pad: GamepadControls,
)
    requires
        !idle_keyboard.upshift && !idle_keyboard.downshift && !idle_keyboard.reverse && !idle_keyboard.neutral,
        gear_command_of(keyboard.upshift, keyboard.downshift, keyboard.reverse, keyboard.neutral) == gear_command_of(
            pad.upshift,
            pad.downshift,
            pad.reverse,
            pad.neutral,
        ),
    ensures
        controlled_gear(gear, idle_keyboard, seq![pad]) == controlled_gear(gear, keyboard, Seq::empty()),
{
    let g = shifted_gear(gear, GearCommand::Hold);
    assert(seq![pad].drop_last() =~= Seq::<GamepadControls>::empty());
    assert(pads_gear(g, seq![pad].drop_last()) == g);
    assert(seq![pad].last() == pad);
    let k = shifted_gear(gear, gear_command_of(keyboard.upshift, keyboard.downshift, keyboard.reverse, keyboard.neutral));
    assert(pads_gear(k, Seq::<GamepadControls>::empty()) == k);
}

/// A gamepad upshift after the keyboard and the earlier gamepads raises the
/// gear by one while it is below the top gear, and a gamepad downshift lowers
/// it by one while it is above neutral.
pub proof fn lemma_gamepad_shift_steps(gear: int, pads: Seq<GamepadControls>, pad: GamepadControls)
    ensures
        gear_command_of(pad.upshift, pad.downshift, pad.reverse, pad.neutral) == GearCommand::Upshift && -1
            <= pads_gear(gear, pads) < TOP_GEAR ==> pads_gear(gear, pads.push(pad)) == pads_gear(gear, pads) + 1,
        gear_command_of(pad.upshift, pad.downshift, pad.reverse, pad.neutral) == GearCommand::Downshift && 0
            < pads_gear(gear, pads) <= TOP_GEAR ==> pads_gear(gear, pads.push(pad)) == pads_gear(gear, pads) - 1,
{
    assert(pads.push(pad).drop_last() =~= pads);
    assert(pads.push(pad).last() == pad);
}

/// The latest gamepad that asks for a brake sets the level of the frame: a
/// hard brake gives the hard level and a soft brake alone the soft level,
/// whatever the keyboard and the earlier gamepads asked.
pub proof fn lemma_last_brake_request_sets_level(level: BrakeLevel, pads: Seq<GamepadControls>, pad: GamepadControls)
    ensures
        pad.hard_brake ==> pads_brake(level, pads.push(pad)) == BrakeLevel::Hard,
        !pad.hard_brake && pad.soft_brake ==> pads_brake(level, pads.push(pad)) == BrakeLevel::Soft,
        !pad.hard_brake && !pad.soft_brake ==> pads_brake(level, pads.push(pad)) == pads_brake(level, pads),
{
    assert(pads.push(pad).drop_last() =~= pads);
    assert(pads.push(pad).last() == pad);
}

/// The engine torque is constant on each band of a thousand revolutions from
/// 1 rpm on, with 85 Nm up to 2999 rpm, then 92, 98, 105, 109 and 100 Nm on
/// the bands starting at 3000, 4000, 5000, 6000 and 7000 rpm; the engine gives
/// none standing, turning backwards, or from 8000 rpm on.
pub proof fn lemma_torque_bands(rpms: int, other: int)
    ensures
        1 <= rpms && 1 <= other && rpms / 1000 == other / 1000 && (rpms >= 3000 || other < 3000)
            ==> torque_for(rpms) == torque_for(other),
        1 <= rpms <= 2999 && 1 <= other <= 2999 ==> torque_for(rpms) == torque_for(other),
        torque_for(1) == 85,
        torque_for(3000) == 92,
        torque_for(4000) == 98,
        torque_for(5000) == 105,
        torque_for(6000) == 109,
        torque_for(7000) == 100,
        rpms <= 0 || rpms >= 8000 ==> torque_for(rpms) == 0,
{
}

/// One throttle update moves the engine speed by exactly one step: up while
/// the throttle is held below the limit, down while it is released above
/// zero; otherwise the speed stays.
pub proof fn lemma_throttle_step(rpms: int, held: bool)
    ensures
        held && rpms < MAX_RPMS ==> throttled_rpms(rpms, held) == rpms + 5,
        held && rpms >= MAX_RPMS ==> throttled_rpms(rpms, held) == rpms,
        !held && rpms > 0 ==> throttled_rpms(rpms, held) == rpms - 5,
        !held && rpms <= 0 ==> throttled_rpms(rpms, held) == rpms,
{
}

/// The gearbox command of a device: an upshift release wins over a
/// downshift, which wins over reverse, which wins over neutral; with none of
/// them the gear is held.
pub proof fn lemma_gear_command_priority(upshift: bool, downshift: bool, reverse: bool, neutral: bool)
    ensures
        upshift ==> gear_command_of(upshift, downshift, reverse, neutral) == GearCommand::Upshift,
        !upshift && downshift ==> gear_command_of(upshift, downshift, reverse, neutral) == GearCommand::Downshift,
        !upshift && !downshift && reverse ==> gear_command_of(upshift, downshift, reverse, neutral)
            == GearCommand::Reverse,
        !upshift && !downshift && !reverse && neutral ==> gear_command_of(upshift, downshift, reverse, neutral)
            == GearCommand::Neutral,
        !upshift && !downshift && !reverse && !neutral ==> gear_command_of(upshift, downshift, reverse, neutral)
            == GearCommand::Hold,
{
}

/// Steering: the keyboard asks one step left for A (even with D), one step
/// right for D alone, none otherwise; each further gamepad adds one step
/// left for a stick pointing left, one step right for a stick pointing right,
/// none for a centred stick.
pub proof fn lemma_steering_steps(keyboard: KeyboardControls, pads: Seq<GamepadControls>, pad: GamepadControls)
    ensures
        keyboard.steer_left ==> keyboard_steps(keyboard) == 1,
        !keyboard.steer_left && keyboard.steer_right ==> keyboard_steps(keyboard) == -1,
        !keyboard.steer_left && !keyboard.steer_right ==> keyboard_steps(keyboard) == 0,
        pads_steps(Seq::<GamepadControls>::empty()) == 0,
        pad.stick == StickDirection::Left ==> pads_steps(pads.push(pad)) == pads_steps(pads) + 1,
        pad.stick == StickDirection::Right ==> pads_steps(pads.push(pad)) == pads_steps(pads) - 1,
        pad.stick == StickDirection::Centered ==> pads_steps(pads.push(pad)) == pads_steps(pads),
{
    assert(pads.push(pad).drop_last() =~= pads);
    assert(pads.push(pad).last() == pad);
}

/// The keyboard's brake: Space brakes hard (even with left shift), left
/// shift alone brakes softly, neither releases the brake.
pub proof fn lemma_keyboard_brake(keyboard: KeyboardControls)
    ensures
        keyboard.hard_brake ==> keyboard_brake(keyboard) == BrakeLevel::Hard,
        !keyboard.hard_brake && keyboard.soft_brake ==> keyboard_brake(keyboard) == BrakeLevel::Soft,
        !keyboard.hard_brake && !keyboard.soft_brake ==> keyboard_brake(keyboard) == BrakeLevel::Released,
        pads_brake(keyboard_brake(keyboard), Seq::empty()) == keyboard_brake(keyboard),
{
}

/// The gear ratios, in thousandths: 3587, 2022, 1384, 1000 and 861 for first
/// to fifth gear, -3587 in reverse, and none in neutral or any other gear.
pub proof fn lemma_gear_ratios(gear: int)
    ensures
        ratio_milli_for(1) == 3587,
        ratio_milli_for(2) == 2022,
        ratio_milli_for(3) == 1384,
        ratio_milli_for(4) == 1000,
        ratio_milli_for(5) == 861,
        ratio_milli_for(-1) == -3587,
        (gear < -1 || gear == 0 || gear > TOP_GEAR) ==> ratio_milli_for(gear) == 0,
{
}

} // verus!
