use rbda::controls::{
    brake_action, BrakeAction, WheelRoll,
    brake_level, controller_step, gear_command, steer_steps, BrakeLevel, Engine, GamepadControls, GearCommand,
    KeyboardControls, StickDirection,
};

fn no_keys() -> KeyboardControls {
    KeyboardControls {
        throttle: false,
        upshift: false,
        downshift: false,
        reverse: false,
        neutral: false,
        steer_left: false,
        steer_right: false,
        hard_brake: false,
        soft_brake: false,
    }
}

fn idle_pad() -> GamepadControls {
    GamepadControls {
        throttle: false,
        upshift: false,
        downshift: false,
        reverse: false,
        neutral: false,
        hard_brake: false,
        soft_brake: false,
        stick: StickDirection::Centered,
    }
}

#[test]
fn engine_new_keeps_fields() {
    let e = Engine::new(2000, 0, 0);
    assert_eq!(e.rpms, 2000);
    assert_eq!(e.gear, 0);
    assert_eq!(e.breaking, 0);
}

#[test]
fn throttle_raises_and_lowers_by_five() {
    let mut e = Engine::new(2000, 1, 0);
    e.throttle(true);
    assert_eq!(e.rpms, 2005);
    e.throttle(false);
    e.throttle(false);
    assert_eq!(e.rpms, 1995);
    assert_eq!(e.gear, 1);
}

#[test]
fn throttle_stops_at_limit_and_at_zero() {
    let mut e = Engine::new(7295, 0, 0);
    e.throttle(true);
    assert_eq!(e.rpms, 7300);
    e.throttle(true);
    assert_eq!(e.rpms, 7300);
    let mut z = Engine::new(5, 0, 0);
    z.throttle(false);
    assert_eq!(z.rpms, 0);
    z.throttle(false);
    assert_eq!(z.rpms, 0);
}

#[test]
fn throttle_from_off_step_speed() {
    // a speed that is not a whole number of steps can overshoot the limit and zero
    let mut e = Engine::new(7299, 0, 0);
    e.throttle(true);
    assert_eq!(e.rpms, 7304);
    let mut z = Engine::new(3, 0, 0);
    z.throttle(false);
    assert_eq!(z.rpms, -2);
    z.throttle(false);
    assert_eq!(z.rpms, -2);
}

#[test]
fn shift_commands() {
    let mut e = Engine::new(2000, 0, 0);
    e.shift(GearCommand::Upshift);
    assert_eq!(e.gear, 1);
    e.shift(GearCommand::Downshift);
    assert_eq!(e.gear, 0);
    e.shift(GearCommand::Downshift);
    assert_eq!(e.gear, 0);
    e.shift(GearCommand::Reverse);
    assert_eq!(e.gear, -1);
    e.shift(GearCommand::Downshift);
    assert_eq!(e.gear, -1);
    e.shift(GearCommand::Upshift);
    assert_eq!(e.gear, 0);
    for _ in 0..7 {
        e.shift(GearCommand::Upshift);
    }
    assert_eq!(e.gear, 5);
    e.shift(GearCommand::Neutral);
    assert_eq!(e.gear, 0);
    e.shift(GearCommand::Hold);
    assert_eq!(e.gear, 0);
    assert_eq!(e.rpms, 2000);
}

#[test]
fn gear_command_priority() {
    assert_eq!(gear_command(true, true, true, true), GearCommand::Upshift);
    assert_eq!(gear_command(false, true, true, true), GearCommand::Downshift);
    assert_eq!(gear_command(false, false, true, true), GearCommand::Reverse);
    assert_eq!(gear_command(false, false, false, true), GearCommand::Neutral);
    assert_eq!(gear_command(false, false, false, false), GearCommand::Hold);
}

#[test]
fn keyboard_w_speeds_up_and_q_upshifts() {
    let mut e = Engine::new(2000, 0, 0);
    let mut keys = no_keys();
    keys.throttle = true;
    keys.upshift = true;
    controller_step(&mut e, &keys, &vec![]);
    assert_eq!(e, Engine::new(2005, 1, 0));
}

#[test]
fn keyboard_e_r_t_gearbox() {
    let mut e = Engine::new(1000, 3, 0);
    let mut keys = no_keys();
    keys.downshift = true;
    controller_step(&mut e, &keys, &vec![]);
    assert_eq!(e.gear, 2);
    let mut keys = no_keys();
    keys.reverse = true;
    controller_step(&mut e, &keys, &vec![]);
    assert_eq!(e.gear, -1);
    let mut keys = no_keys();
    keys.neutral = true;
    controller_step(&mut e, &keys, &vec![]);
    assert_eq!(e.gear, 0);
    // the throttle was released all along
    assert_eq!(e.rpms, 985);
}

#[test]
fn idle_gamepad_keeps_keyboard_throttle() {
    let mut e = Engine::new(2000, 2, 0);
    let mut keys = no_keys();
    keys.throttle = true;
    controller_step(&mut e, &keys, &vec![idle_pad()]);
    assert_eq!(e.rpms, 2005);
    assert_eq!(e.gear, 2);
}

#[test]
fn throttle_steps_per_device() {
    let mut e = Engine::new(2000, 2, 0);
    // no device holds the throttle: each of the four slows the engine
    controller_step(&mut e, &no_keys(), &vec![idle_pad(), idle_pad(), idle_pad()]);
    assert_eq!(e.rpms, 1980);
    // one gamepad holds it: the idle devices leave the speed
    let mut south = idle_pad();
    south.throttle = true;
    controller_step(&mut e, &no_keys(), &vec![idle_pad(), south]);
    assert_eq!(e.rpms, 1985);
    // every holding device speeds the engine up
    let mut keys = no_keys();
    keys.throttle = true;
    controller_step(&mut e, &keys, &vec![south, south]);
    assert_eq!(e.rpms, 2000);
    // slowing stops at zero
    let mut z = Engine::new(10, 0, 0);
    controller_step(&mut z, &no_keys(), &vec![idle_pad(), idle_pad()]);
    assert_eq!(z.rpms, 0);
}

#[test]
fn gamepad_south_accelerates_and_triggers_shift() {
    let mut e = Engine::new(2000, 2, 0);
    let mut pad = idle_pad();
    pad.throttle = true;
    pad.upshift = true;
    let mut keys = no_keys();
    keys.throttle = true;
    controller_step(&mut e, &keys, &vec![pad]);
    assert_eq!(e.rpms, 2010);
    assert_eq!(e.gear, 3);
    let mut pad = idle_pad();
    pad.downshift = true;
    pad.neutral = true;
    controller_step(&mut e, &no_keys(), &vec![pad]);
    assert_eq!(e.gear, 2);
    let mut pad = idle_pad();
    pad.reverse = true;
    controller_step(&mut e, &no_keys(), &vec![pad]);
    assert_eq!(e.gear, -1);
    let mut pad = idle_pad();
    pad.neutral = true;
    controller_step(&mut e, &no_keys(), &vec![pad]);
    assert_eq!(e.gear, 0);
}

#[test]
fn keyboard_then_gamepads_in_order() {
    let mut e = Engine::new(2000, 4, 0);
    let mut keys = no_keys();
    keys.upshift = true;
    let mut p1 = idle_pad();
    p1.upshift = true;
    let mut p2 = idle_pad();
    p2.reverse = true;
    let mut p3 = idle_pad();
    p3.upshift = true;
    controller_step(&mut e, &keys, &vec![p1, p2, p3]);
    // 4 -> 5 -> 5 -> -1 -> 0
    assert_eq!(e.gear, 0);
    assert_eq!(e.rpms, 1980);
}

#[test]
fn controls_keep_engine_in_range_from_start() {
    let mut e = Engine::new(2000, 0, 0);
    let mut pad = idle_pad();
    for frame in 0..5000u32 {
        let mut keys = no_keys();
        keys.throttle = frame % 7 != 0;
        keys.upshift = frame % 11 == 0;
        keys.downshift = frame % 13 == 0;
        keys.reverse = frame % 97 == 0;
        pad.throttle = frame % 3 == 0;
        pad.upshift = frame % 17 == 0;
        controller_step(&mut e, &keys, &vec![pad]);
        assert!(0 <= e.rpms && e.rpms <= 7300 && e.rpms % 5 == 0);
        assert!(-1 <= e.gear && e.gear <= 5);
    }
}

#[test]
fn upshift_then_downshift_returns() {
    for g in 0..5 {
        let mut e = Engine::new(0, g, 0);
        e.shift(GearCommand::Upshift);
        e.shift(GearCommand::Downshift);
        assert_eq!(e.gear, g);
    }
    for g in 1..6 {
        let mut e = Engine::new(0, g, 0);
        e.shift(GearCommand::Downshift);
        e.shift(GearCommand::Upshift);
        assert_eq!(e.gear, g);
    }
}

#[test]
fn throttle_then_release_returns() {
    for r in (0..7300).step_by(5) {
        let mut e = Engine::new(r, 0, 0);
        e.throttle(true);
        e.throttle(false);
        assert_eq!(e.rpms, r);
    }
}

#[test]
fn steering_keyboard() {
    let mut keys = no_keys();
    assert_eq!(steer_steps(&keys, &vec![]), 0);
    keys.steer_left = true;
    assert_eq!(steer_steps(&keys, &vec![]), 1);
    keys.steer_right = true;
    assert_eq!(steer_steps(&keys, &vec![]), 1);
    keys.steer_left = false;
    assert_eq!(steer_steps(&keys, &vec![]), -1);
}

#[test]
fn steering_sticks_add_up() {
    let mut left = idle_pad();
    left.stick = StickDirection::Left;
    let mut right = idle_pad();
    right.stick = StickDirection::Right;
    let mut keys = no_keys();
    keys.steer_left = true;
    assert_eq!(steer_steps(&keys, &vec![left, left]), 3);
    assert_eq!(steer_steps(&keys, &vec![right, idle_pad(), right]), -1);
    assert_eq!(steer_steps(&no_keys(), &vec![right]), -1);
}

#[test]
fn brake_keyboard_levels() {
    let mut keys = no_keys();
    assert_eq!(brake_level(&keys, &vec![]), BrakeLevel::Released);
    keys.soft_brake = true;
    assert_eq!(brake_level(&keys, &vec![]), BrakeLevel::Soft);
    keys.hard_brake = true;
    assert_eq!(brake_level(&keys, &vec![]), BrakeLevel::Hard);
}

#[test]
fn brake_gamepads_override_in_order() {
    let mut keys = no_keys();
    keys.hard_brake = true;
    let mut soft = idle_pad();
    soft.soft_brake = true;
    let mut hard = idle_pad();
    hard.hard_brake = true;
    assert_eq!(brake_level(&keys, &vec![idle_pad()]), BrakeLevel::Hard);
    assert_eq!(brake_level(&keys, &vec![soft]), BrakeLevel::Soft);
    assert_eq!(brake_level(&no_keys(), &vec![soft, hard]), BrakeLevel::Hard);
    assert_eq!(brake_level(&no_keys(), &vec![hard, soft, idle_pad()]), BrakeLevel::Soft);
    let mut both = idle_pad();
    both.hard_brake = true;
    both.soft_brake = true;
    assert_eq!(brake_level(&no_keys(), &vec![both]), BrakeLevel::Hard);
}

#[test]
fn steering_is_at_most_one_step_per_device() {
    let mut left = idle_pad();
    left.stick = StickDirection::Left;
    let mut keys = no_keys();
    keys.steer_left = true;
    let pads = vec![left; 6];
    assert_eq!(steer_steps(&keys, &pads), 7);
    let mut right = idle_pad();
    right.stick = StickDirection::Right;
    let mut keys = no_keys();
    keys.steer_right = true;
    assert_eq!(steer_steps(&keys, &vec![right; 4]), -5);
}

#[test]
fn brake_actions() {
    for roll in [WheelRoll::NotForward, WheelRoll::SlowForward, WheelRoll::FastForward] {
        assert_eq!(brake_action(BrakeLevel::Hard, roll), BrakeAction::Stop);
        assert_eq!(brake_action(BrakeLevel::Released, roll), BrakeAction::Keep);
    }
    assert_eq!(brake_action(BrakeLevel::Soft, WheelRoll::FastForward), BrakeAction::SlowDown);
    assert_eq!(brake_action(BrakeLevel::Soft, WheelRoll::SlowForward), BrakeAction::Stop);
    assert_eq!(brake_action(BrakeLevel::Soft, WheelRoll::NotForward), BrakeAction::Keep);
}
