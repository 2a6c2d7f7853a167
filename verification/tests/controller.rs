use fps_controller::fixmath::{wrap_angle, DIAG, FULL_TURN, SCALE};
use fps_controller::input::{
    any_held, interpret_input, movement_intent, HeldKeys, InputSnapshot, LocalVec2, LookDelta,
    MotionDelta,
};
use fps_controller::locomotion::{
    effective_speed, LocomotionPolicy, CROUCH_FLOAT_OFFSET,
};
use fps_controller::orientation::{integrate_pitch, integrate_yaw, LookConfig};
use fps_controller::player::{
    apply_controls, apply_mouse, execute_move, player_tick, PlayerBody, PlayerCamera, Pose,
};

fn keys(forward: bool, back: bool, left: bool, right: bool) -> HeldKeys {
    HeldKeys { forward, back, left, right }
}

fn test_policy() -> LocomotionPolicy {
    LocomotionPolicy {
        base_speed: 3_000_000,
        crouch_multiplier: 200_000,
        jump_height: 1_500_000,
        fall_gravity_bonus: 10_000_000,
        float_height: 450_000,
        spring_strength: 1_000_000_000,
    }
}

fn test_config() -> LookConfig {
    LookConfig { pitch_limit: 1_382_300_000 }
}

fn quiet_snapshot(k: HeldKeys, jump: bool, crouch: bool) -> InputSnapshot {
    InputSnapshot {
        keys: k,
        jump_held: jump,
        crouch_keys_held: vec![false, crouch],
        motion: vec![],
    }
}

#[test]
fn intent_single_key_is_unit() {
    let v = movement_intent(&keys(true, false, false, false));
    assert_eq!(v, LocalVec2 { along_forward: SCALE, along_right: 0 });
    let v = movement_intent(&keys(false, false, true, false));
    assert_eq!(v, LocalVec2 { along_forward: 0, along_right: -SCALE });
}

#[test]
fn intent_opposite_keys_cancel() {
    let v = movement_intent(&keys(true, true, false, false));
    assert_eq!(v, LocalVec2 { along_forward: 0, along_right: 0 });
    let v = movement_intent(&keys(true, true, true, true));
    assert_eq!(v, LocalVec2 { along_forward: 0, along_right: 0 });
    let v = movement_intent(&keys(false, false, false, false));
    assert_eq!(v, LocalVec2 { along_forward: 0, along_right: 0 });
}

#[test]
fn intent_diagonal_is_clamped_to_unit_length() {
    let v = movement_intent(&keys(true, false, true, false));
    assert_eq!(v, LocalVec2 { along_forward: DIAG, along_right: -DIAG });
    let len2 = v.along_forward * v.along_forward + v.along_right * v.along_right;
    assert!(len2 <= SCALE * SCALE);
}

#[test]
fn crouch_scales_speed_exactly() {
    let policy = test_policy();
    assert_eq!(effective_speed(&policy, false), 3_000_000);
    assert_eq!(effective_speed(&policy, true), 600_000);
}

#[test]
fn forward_walk_velocity_is_base_speed() {
    let mut body = PlayerBody::default();
    let snap = quiet_snapshot(keys(true, false, false, false), false, false);
    let intent = interpret_input(&snap);
    apply_controls(&mut body, &intent, &test_policy());
    assert_eq!(
        body.desired_velocity,
        LocalVec2 { along_forward: 3_000_000, along_right: 0 }
    );
    assert!(!body.jump);
    assert!(!body.crouch);
}

#[test]
fn crouched_diagonal_velocity_is_scaled_diagonal() {
    let mut body = PlayerBody::default();
    let snap = quiet_snapshot(keys(true, false, false, true), false, true);
    let intent = interpret_input(&snap);
    assert!(intent.crouch_requested);
    apply_controls(&mut body, &intent, &test_policy());
    // normalize(forward + right) at speed 0.6: each component 0.707106 * 0.6.
    assert_eq!(
        body.desired_velocity,
        LocalVec2 { along_forward: 424_263, along_right: 424_263 }
    );
}

#[test]
fn backward_velocity_is_negative() {
    let mut body = PlayerBody::default();
    let snap = quiet_snapshot(keys(false, true, false, false), false, false);
    let intent = interpret_input(&snap);
    apply_controls(&mut body, &intent, &test_policy());
    assert_eq!(
        body.desired_velocity,
        LocalVec2 { along_forward: -3_000_000, along_right: 0 }
    );
}

#[test]
fn look_delta_is_negated_sum_of_motion() {
    let snap = InputSnapshot {
        keys: keys(false, false, false, false),
        jump_held: true,
        crouch_keys_held: vec![false, false],
        motion: vec![
            MotionDelta { dx: 10, dy: 20 },
            MotionDelta { dx: 30, dy: 40 },
            MotionDelta { dx: -5, dy: -100 },
        ],
    };
    let intent = interpret_input(&snap);
    assert_eq!(intent.look_delta, LookDelta { dx: -35, dy: 40 });
    assert!(intent.jump_requested);
    assert!(!intent.crouch_requested);
}

#[test]
fn empty_motion_queue_gives_zero_look_delta() {
    let snap = quiet_snapshot(keys(false, false, false, false), false, false);
    let intent = interpret_input(&snap);
    assert_eq!(intent.look_delta, LookDelta { dx: 0, dy: 0 });
}

#[test]
fn full_motion_queue_at_event_bound_sums_exactly() {
    let mut motion = Vec::new();
    for _ in 0..1000 {
        motion.push(MotionDelta { dx: 1_000_000_000, dy: -1_000_000_000 });
    }
    let snap = InputSnapshot {
        keys: keys(false, false, false, false),
        jump_held: false,
        crouch_keys_held: vec![],
        motion,
    };
    let intent = interpret_input(&snap);
    assert_eq!(
        intent.look_delta,
        LookDelta { dx: -1_000_000_000_000, dy: 1_000_000_000_000 }
    );
}

#[test]
fn any_held_is_any_of_the_set() {
    assert!(!any_held(&vec![]));
    assert!(!any_held(&vec![false, false]));
    assert!(any_held(&vec![false, true]));
    assert!(any_held(&vec![true]));
}

#[test]
fn pitch_guard_blocks_further_positive_delta_at_boundary() {
    let config = test_config();
    let at_limit = config.pitch_limit;
    assert_eq!(integrate_pitch(at_limit, 5_000, &config), at_limit);
    assert_eq!(integrate_pitch(at_limit, 1, &config), at_limit);
}

#[test]
fn pitch_guard_always_accepts_recovering_delta() {
    let config = test_config();
    let at_limit = config.pitch_limit;
    // look_step(-5000) = -(5_000_000 / 180) = -27_777.
    assert_eq!(integrate_pitch(at_limit, -5_000, &config), at_limit - 27_777);
    assert_eq!(integrate_pitch(-at_limit, -5_000, &config), -at_limit);
    assert_eq!(integrate_pitch(-at_limit, 5_000, &config), -at_limit + 27_777);
}

#[test]
fn pitch_below_boundary_moves_freely() {
    let config = test_config();
    assert_eq!(integrate_pitch(0, 1_800, &config), 10_000);
    assert_eq!(integrate_pitch(0, -1_800, &config), -10_000);
    assert_eq!(integrate_pitch(12_345, 0, &config), 12_345);
}

#[test]
fn yaw_wraps_into_one_turn() {
    // look_step(-1) = -5 nano-radians.
    assert_eq!(integrate_yaw(0, -1), FULL_TURN - 5);
    assert_eq!(integrate_yaw(FULL_TURN - 5, 1), 0);
    assert_eq!(wrap_angle(FULL_TURN), 0);
    assert_eq!(wrap_angle(-5), FULL_TURN - 5);
}

#[test]
fn yaw_returns_after_deltas_summing_to_full_turn() {
    // look_step(565_486_677) is exactly half a revolution.
    let half_turn_delta = 565_486_677;
    let start = 123_456;
    let after_half = integrate_yaw(start, half_turn_delta);
    assert_ne!(after_half, start);
    let after_full = integrate_yaw(after_half, half_turn_delta);
    assert_eq!(after_full, start);
}

#[test]
fn zero_look_delta_leaves_both_rotations_unchanged() {
    let config = test_config();
    let mut camera = PlayerCamera { pitch: 77_000 };
    let mut body = PlayerBody::default();
    let pose = Pose { position: Default::default(), yaw: 555_000 };
    apply_mouse(
        &mut camera,
        &mut body,
        &pose,
        &LookDelta { dx: 0, dy: 0 },
        &config,
    );
    assert_eq!(camera.pitch, 77_000);
    assert_eq!(body.desired_rotation, 555_000);
}

#[test]
fn bridge_emits_jump_every_tick_while_requested() {
    let policy = test_policy();
    let mut pose = Pose::default();
    let mut body = PlayerBody::default();
    body.jump = true;
    // The bridge consults no airborne state: a held jump key emits the
    // action on every tick, deduplication being the actuator's concern.
    for _ in 0..3 {
        let req = execute_move(&mut pose, &body, &policy);
        let jump = req.jump.expect("jump action expected every tick");
        assert_eq!(jump.height, 1_500_000);
        assert_eq!(jump.fall_extra_gravity, 10_000_000);
        assert!(req.crouch.is_none());
    }
}

#[test]
fn bridge_emits_crouch_only_while_requested() {
    let policy = test_policy();
    let mut pose = Pose::default();
    let mut body = PlayerBody::default();
    body.crouch = true;
    let req = execute_move(&mut pose, &body, &policy);
    assert_eq!(req.crouch.expect("crouch action expected").float_offset, CROUCH_FLOAT_OFFSET);
    assert!(req.jump.is_none());
    body.crouch = false;
    let req = execute_move(&mut pose, &body, &policy);
    assert!(req.crouch.is_none());
}

#[test]
fn bridge_request_is_identical_when_repeated() {
    let policy = test_policy();
    let mut pose = Pose { position: Default::default(), yaw: 42 };
    let mut body = PlayerBody::default();
    body.desired_rotation = 1_000_000;
    body.desired_velocity = LocalVec2 { along_forward: 3_000_000, along_right: 0 };
    let first = execute_move(&mut pose, &body, &policy);
    let pose_after_first = pose;
    let second = execute_move(&mut pose, &body, &policy);
    assert_eq!(first, second);
    assert_eq!(pose, pose_after_first);
    assert_eq!(pose.yaw, 1_000_000);
}

#[test]
fn basis_request_carries_policy_and_zero_forward_hint() {
    let policy = test_policy();
    let mut pose = Pose::default();
    let body = PlayerBody::default();
    let req = execute_move(&mut pose, &body, &policy);
    assert_eq!(req.basis.float_height, 450_000);
    assert_eq!(req.basis.spring_strength, 1_000_000_000);
    assert_eq!(req.basis.desired_forward.x, 0);
    assert_eq!(req.basis.desired_forward.y, 0);
    assert_eq!(req.basis.desired_forward.z, 0);
    assert_eq!(
        req.basis.desired_velocity,
        LocalVec2 { along_forward: 0, along_right: 0 }
    );
}

#[test]
fn full_tick_runs_the_three_stages_in_order() {
    let policy = test_policy();
    let config = test_config();
    let mut body = PlayerBody::default();
    let mut camera = PlayerCamera::default();
    let mut pose = Pose::default();
    let snap = InputSnapshot {
        keys: keys(true, false, false, false),
        jump_held: true,
        crouch_keys_held: vec![false, false],
        motion: vec![MotionDelta { dx: -180, dy: -360 }],
    };
    let req = player_tick(&mut body, &mut camera, &mut pose, &snap, &policy, &config);
    // look delta (180, 360): pitch up by 2000, yaw ahead by 1000.
    assert_eq!(camera.pitch, 2_000);
    assert_eq!(pose.yaw, 1_000);
    assert_eq!(body.desired_rotation, 1_000);
    assert_eq!(pose.position, Default::default());
    assert!(req.jump.is_some());
    assert!(req.crouch.is_none());
    assert_eq!(
        req.basis.desired_velocity,
        LocalVec2 { along_forward: 3_000_000, along_right: 0 }
    );
}

#[test]
fn tick_with_no_input_is_a_neutral_request() {
    let policy = test_policy();
    let config = test_config();
    let mut body = PlayerBody::default();
    let mut camera = PlayerCamera::default();
    let mut pose = Pose::default();
    let snap = quiet_snapshot(keys(false, false, false, false), false, false);
    let req = player_tick(&mut body, &mut camera, &mut pose, &snap, &policy, &config);
    assert!(req.jump.is_none());
    assert!(req.crouch.is_none());
    assert_eq!(
        req.basis.desired_velocity,
        LocalVec2 { along_forward: 0, along_right: 0 }
    );
    assert_eq!(camera.pitch, 0);
    assert_eq!(pose.yaw, 0);
}
