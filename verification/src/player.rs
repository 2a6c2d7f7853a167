//! The player body and camera, and the per-tick controller pipeline over
//! them: input interpretation, orientation integration, and the locomotion
//! actuator bridge.

use vstd::prelude::*;

verus! {

use crate::fixmath::{FULL_TURN, LOOK_DELTA_BOUND, SPEED_MAX, Vec3Fix};
use crate::fixmath::scale_mul;
use crate::input::{
    any_true, intent_bounded, intent_forward, intent_right, snapshot_bounded, sum_dx, sum_dy,
};
use crate::input::{interpret_input, InputIntent, InputSnapshot, LocalVec2, LookDelta};
use crate::locomotion::{
    desired_velocity, effective_speed, speed_for, ActuatorRequests, BasisRequest, CrouchAction,
    JumpAction, LocomotionPolicy, CROUCH_FLOAT_OFFSET,
};
use crate::orientation::{
    integrate_pitch, integrate_yaw, pitch_in_range, pitch_step, yaw_step, LookConfig,
};
use vstd::arithmetic::div_mod::lemma_small_mod;

/// The controlled body: the per-tick intentions the stages accumulate
/// before the bridge hands them to the actuator and the pose.
#[derive(Clone, Copy, PartialEq, Eq, Debug)]
pub struct PlayerBody {
    /// The yaw the bridge will commit onto the pose, in nano-radians.
    pub desired_rotation: i64,
    /// The walk velocity the bridge will request, in the body's local frame.
    pub desired_velocity: LocalVec2,
    /// Whether a jump action is to be emitted this tick.
    pub jump: bool,
    /// Whether a crouch action is to be emitted this tick.
    pub crouch: bool,
}

/// The camera attached to the body. It owns only the pitch; yaw lives on
/// the body, so the two never merge into a compound rotation.
#[derive(Clone, Copy, PartialEq, Eq, Debug)]
pub struct PlayerCamera {
    /// Pitch rotation, in nano-radians, positive looking up.
    pub pitch: i64,
}

/// The body's entry in the pose store: position and yaw rotation.
#[derive(Clone, Copy, PartialEq, Eq, Debug)]
pub struct Pose {
    pub position: Vec3Fix,
    /// Yaw rotation, in nano-radians, folded into one revolution.
    pub yaw: i64,
}

impl PlayerBody {
    /// A body the stages may work on: rotation folded into one turn and
    /// velocity within the speed bound.
    pub open spec fn wf(self) -> bool {
        &&& 0 <= self.desired_rotation < FULL_TURN
        &&& -SPEED_MAX <= self.desired_velocity.along_forward <= SPEED_MAX
        &&& -SPEED_MAX <= self.desired_velocity.along_right <= SPEED_MAX
    }
}

impl Default for PlayerBody {
    /// A freshly spawned body: at rest, facing yaw zero, no actions.
    fn default() -> (b: PlayerBody)
        ensures
            b.desired_rotation == 0,
            b.desired_velocity == (LocalVec2 { along_forward: 0, along_right: 0 }),
            !b.jump,
            !b.crouch,
            b.wf(),
    {
        PlayerBody {
            desired_rotation: 0,
            desired_velocity: LocalVec2 { along_forward: 0, along_right: 0 },
            jump: false,
            crouch: false,
        }
    }
}

impl PlayerCamera {
    /// A camera admissible under a configuration: pitch within the clamp
    /// threshold plus at most one tick's overshoot.
    pub open spec fn wf(self, config: LookConfig) -> bool {
        pitch_in_range(self.pitch as int, config.pitch_limit as int)
    }
}

impl Default for PlayerCamera {
    /// A freshly attached camera, looking level.
    fn default() -> (c: PlayerCamera)
        ensures
            c.pitch == 0,
    {
        PlayerCamera { pitch: 0 }
    }
}

impl Pose {
    /// A pose the controller may commit onto: yaw folded into one turn.
    pub open spec fn wf(self) -> bool {
        0 <= self.yaw < FULL_TURN
    }
}

impl Default for Pose {
    /// A pose at the origin, facing yaw zero.
    fn default() -> (p: Pose)
        ensures
            p.position == (Vec3Fix { x: 0, y: 0, z: 0 }),
            p.yaw == 0,
            p.wf(),
    {
        Pose { position: Vec3Fix { x: 0, y: 0, z: 0 }, yaw: 0 }
    }
}

/// Everything the bridge emits for one tick, as a function of the body's
/// accumulated intentions and the policy alone: a jump action exactly when
/// jump is requested, a crouch action exactly when crouch is requested, and
/// always a walk basis carrying the desired velocity, a zero forward hint,
/// and the policy's float height and spring strength.
pub open spec fn requests_spec(body: PlayerBody, policy: LocomotionPolicy) -> ActuatorRequests {
    ActuatorRequests {
        jump: if body.jump {
            Some(
                JumpAction {
                    height: policy.jump_height,
                    fall_extra_gravity: policy.fall_gravity_bonus,
                },
            )
        } else {
            None
        },
        crouch: if body.crouch {
            Some(CrouchAction { float_offset: CROUCH_FLOAT_OFFSET })
        } else {
            None
        },
        basis: BasisRequest {
            desired_velocity: body.desired_velocity,
            desired_forward: Vec3Fix { x: 0, y: 0, z: 0 },
            float_height: policy.float_height,
            spring_strength: policy.spring_strength,
        },
    }
}

/// What committing a rotation does to the pose store: the yaw is replaced,
/// the position untouched.
pub open spec fn commit_rotation(pose: Pose, rotation: i64) -> Pose {
    Pose { position: pose.position, yaw: rotation }
}

/// Translates the interpreted input into the body's locomotion intentions:
/// level-triggered jump and crouch flags, and the desired velocity - the
/// movement intent scaled by the base speed, reduced by the crouch
/// multiplier exactly when crouch is requested.
pub fn apply_controls(body: &mut PlayerBody, intent: &InputIntent, policy: &LocomotionPolicy)
    requires
        policy.wf(),
        intent_bounded(*intent),
        old(body).wf(),
    ensures
        final(body).wf(),
        final(body).jump == intent.jump_requested,
        final(body).crouch == intent.crouch_requested,
        final(body).desired_velocity.along_forward == scale_mul(
            intent.movement_intent.along_forward as int,
            speed_for(*policy, intent.crouch_requested),
        ),
        final(body).desired_velocity.along_right == scale_mul(
            intent.movement_intent.along_right as int,
            speed_for(*policy, intent.crouch_requested),
        ),
        final(body).desired_rotation == old(body).desired_rotation,
{
    body.jump = intent.jump_requested;
    body.crouch = intent.crouch_requested;
    let speed: i64 = effective_speed(policy, intent.crouch_requested);
    body.desired_velocity = desired_velocity(&intent.movement_intent, speed);
}

/// Integrates the tick's look delta: pitch onto the camera (held back by
/// the one-sided guard at the clamp threshold), yaw onto the body's desired
/// rotation, each axis independent of the other. A zero delta leaves both
/// rotations exactly unchanged.
pub fn apply_mouse(
    camera: &mut PlayerCamera,
    body: &mut PlayerBody,
    body_pose: &Pose,
    look: &LookDelta,
    config: &LookConfig,
)
    requires
        config.wf(),
        body_pose.wf(),
        old(camera).wf(*config),
        old(body).wf(),
        -LOOK_DELTA_BOUND <= look.dx <= LOOK_DELTA_BOUND,
        -LOOK_DELTA_BOUND <= look.dy <= LOOK_DELTA_BOUND,
    ensures
        final(camera).pitch == pitch_step(
            old(camera).pitch as int,
            look.dy as int,
            config.pitch_limit as int,
        ),
        final(camera).wf(*config),
        final(body).desired_rotation == yaw_step(body_pose.yaw as int, look.dx as int),
        final(body).wf(),
        final(body).desired_velocity == old(body).desired_velocity,
        final(body).jump == old(body).jump,
        final(body).crouch == old(body).crouch,
        look.dy == 0 ==> final(camera).pitch == old(camera).pitch,
        look.dx == 0 ==> final(body).desired_rotation == body_pose.yaw,
{
    camera.pitch = integrate_pitch(camera.pitch, look.dy, config);
    body.desired_rotation = integrate_yaw(body_pose.yaw, look.dx);
    proof {
        if look.dx == 0 {
            lemma_small_mod(body_pose.yaw as nat, FULL_TURN as nat);
        }
    }
}

/// The locomotion actuator bridge: emits the tick's actuator requests as a
/// pure function of the body's intentions and the policy, then commits the
/// desired rotation onto the pose - the one place body rotation is applied,
/// bypassing physics-driven rotation entirely. It never rejects a tick, and
/// it consults no ground or air state: a held jump key emits a jump action
/// every tick, and deduplication is the actuator's concern.
pub fn execute_move(pose: &mut Pose, body: &PlayerBody, policy: &LocomotionPolicy) -> (req:
    ActuatorRequests)
    requires
        body.wf(),
        old(pose).wf(),
    ensures
        req == requests_spec(*body, *policy),
        req.jump.is_some() <==> body.jump,
        req.crouch.is_some() <==> body.crouch,
        *final(pose) == commit_rotation(*old(pose), body.desired_rotation),
        final(pose).wf(),
{
    let jump: Option<JumpAction> = if body.jump {
        Some(
            JumpAction {
                height: policy.jump_height,
                fall_extra_gravity: policy.fall_gravity_bonus,
            },
        )
    } else {
        None
    };
    let crouch: Option<CrouchAction> = if body.crouch {
        Some(CrouchAction { float_offset: CROUCH_FLOAT_OFFSET })
    } else {
        None
    };
    let basis: BasisRequest = BasisRequest {
        desired_velocity: body.desired_velocity,
        desired_forward: Vec3Fix { x: 0, y: 0, z: 0 },
        float_height: policy.float_height,
        spring_strength: policy.spring_strength,
    };
    pose.yaw = body.desired_rotation;
    ActuatorRequests { jump, crouch, basis }
}

/// The bridge is idempotent: the requests are a function of body and policy
/// alone, so identical inputs give identical requests, and committing the
/// same rotation twice leaves the pose exactly as committing it once - the
/// pose write is the bridge's only side effect, and it carries nothing
/// unique to the tick.
pub proof fn lemma_bridge_idempotent(pose: Pose, body: PlayerBody, policy: LocomotionPolicy)
    ensures
        commit_rotation(commit_rotation(pose, body.desired_rotation), body.desired_rotation)
            == commit_rotation(pose, body.desired_rotation),
{
}

/// One full simulation tick, the three stages in their strict order: the
/// input interpreter collapses the snapshot into an intent, the orientation
/// integrator turns the look delta into new pitch and desired yaw, and the
/// actuator bridge scales the movement intent into a velocity, emits the
/// actuator requests, and commits the rotation onto the pose.
pub fn player_tick(
    body: &mut PlayerBody,
    camera: &mut PlayerCamera,
    pose: &mut Pose,
    snap: &InputSnapshot,
    policy: &LocomotionPolicy,
    config: &LookConfig,
) -> (req: ActuatorRequests)
    requires
        policy.wf(),
        config.wf(),
        snapshot_bounded(*snap),
        old(body).wf(),
        old(camera).wf(*config),
        old(pose).wf(),
    ensures
        final(body).wf(),
        final(camera).wf(*config),
        final(pose).wf(),
        final(body).jump == snap.jump_held,
        final(body).crouch == any_true(snap.crouch_keys_held@),
        final(body).desired_velocity.along_forward == scale_mul(
            intent_forward(snap.keys),
            speed_for(*policy, any_true(snap.crouch_keys_held@)),
        ),
        final(body).desired_velocity.along_right == scale_mul(
            intent_right(snap.keys),
            speed_for(*policy, any_true(snap.crouch_keys_held@)),
        ),
        final(camera).pitch == pitch_step(
            old(camera).pitch as int,
            -sum_dy(snap.motion@),
            config.pitch_limit as int,
        ),
        final(pose).yaw == yaw_step(old(pose).yaw as int, -sum_dx(snap.motion@)),
        final(pose).position == old(pose).position,
        req == requests_spec(*final(body), *policy),
{
    let intent: InputIntent = interpret_input(snap);
    apply_mouse(camera, body, &*pose, &intent.look_delta, config);
    apply_controls(body, &intent, policy);
    execute_move(pose, body, policy)
}

} // verus!
