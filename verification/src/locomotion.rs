//! Locomotion policy and the actuator request vocabulary.
//!
//! The physics actuator is an external collaborator; the controller only
//! builds plain request values for it: a continuous walk basis each tick
//! and discrete jump / crouch actions.

use vstd::prelude::*;

verus! {

use vstd::arithmetic::div_mod::{
    lemma_div_multiples_vanish, lemma_div_pos_is_pos, lemma_fundamental_div_mod,
};
use crate::fixmath::{DIAG, SCALE, SPEED_MAX, Vec3Fix};
use crate::fixmath::{mul_scale, scale_mul};
use crate::input::{intent_forward, intent_right, net_forward, net_right, HeldKeys, LocalVec2};

/// Session-constant speed and actuator tuning, in micro-units.
#[derive(Clone, Copy, PartialEq, Eq, Debug)]
pub struct LocomotionPolicy {
    /// Walking speed at full intent, micro-units per second.
    pub base_speed: i64,
    /// Factor applied to the speed while crouching, strictly below one.
    pub crouch_multiplier: i64,
    /// Height of a jump handed to the actuator.
    pub jump_height: i64,
    /// Extra gravity the actuator applies while falling from a jump.
    pub fall_gravity_bonus: i64,
    /// Ground clearance the actuator maintains by spring correction.
    pub float_height: i64,
    /// How aggressively the actuator corrects toward the float height.
    pub spring_strength: i64,
}

impl LocomotionPolicy {
    /// A usable policy: non-negative bounded speed, and a crouch factor
    /// strictly below one so crouching always slows.
    pub open spec fn wf(self) -> bool {
        &&& 0 <= self.base_speed <= SPEED_MAX
        &&& 0 <= self.crouch_multiplier < SCALE
    }
}

/// The float-height reduction requested while crouching, in micro-units.
pub const CROUCH_FLOAT_OFFSET: i64 = -200_000;

/// A discrete jump directive for the actuator.
#[derive(Clone, Copy, PartialEq, Eq, Debug)]
pub struct JumpAction {
    pub height: i64,
    pub fall_extra_gravity: i64,
}

/// A discrete crouch directive for the actuator.
#[derive(Clone, Copy, PartialEq, Eq, Debug)]
pub struct CrouchAction {
    pub float_offset: i64,
}

/// The continuous walk directive issued every tick: target velocity in the
/// body's local frame, a forward hint, and the float-spring tuning.
#[derive(Clone, Copy, PartialEq, Eq, Debug)]
pub struct BasisRequest {
    pub desired_velocity: LocalVec2,
    /// Always zero: rotation is committed directly onto the pose, never
    /// driven by the physics basis, so first-person turning is instant.
    pub desired_forward: Vec3Fix,
    pub float_height: i64,
    pub spring_strength: i64,
}

/// Everything the bridge hands the actuator in one tick.
#[derive(Clone, Copy, PartialEq, Eq, Debug)]
pub struct ActuatorRequests {
    pub jump: Option<JumpAction>,
    pub crouch: Option<CrouchAction>,
    pub basis: BasisRequest,
}

/// The speed a tick moves at: the base speed, scaled by the crouch
/// multiplier exactly when crouch is requested.
pub open spec fn speed_for(policy: LocomotionPolicy, crouch: bool) -> int {
    if crouch {
        ((policy.base_speed as int) * (policy.crouch_multiplier as int)) / (SCALE as int)
    } else {
        policy.base_speed as int
    }
}

/// Computes the effective speed of a tick. Crouching never speeds up: the
/// result stays within the base speed.
pub fn effective_speed(policy: &LocomotionPolicy, crouch: bool) -> (s: i64)
    requires
        policy.wf(),
    ensures
        s == speed_for(*policy, crouch),
        0 <= s <= policy.base_speed,
{
    if crouch {
        mul_scale(policy.base_speed, policy.crouch_multiplier)
    } else {
        policy.base_speed
    }
}

/// A diagonal component scaled by the speed: its square stays within half
/// the speed's square, because the intent was clamped to unit length.
proof fn lemma_diagonal_component_sq(sp: int)
    requires
        0 <= sp,
    ensures
        2 * (((DIAG as int) * sp / (SCALE as int)) * ((DIAG as int) * sp / (SCALE as int))) <= sp
            * sp,
{
    let d: int = DIAG as int;
    let s: int = SCALE as int;
    let q: int = d * sp / s;
    lemma_fundamental_div_mod(d * sp, s);
    if q < 0 {
        lemma_div_pos_is_pos(d * sp, s);
        assert(d * sp >= 0) by (nonlinear_arith)
            requires
                d == 707_106int,
                sp >= 0,
        ;
    }
    assert(s * q <= d * sp);
    assert(2 * (q * q) <= sp * sp) by (nonlinear_arith)
        requires
            s * q <= d * sp,
            0 <= q,
            0 <= sp,
            d == 707_106int,
            s == 1_000_000int,
    ;
}

/// The data-model invariant behind the unit-length clamp: the desired
/// velocity never exceeds the effective speed in magnitude, for every
/// held-key combination - diagonal input included.
pub proof fn lemma_velocity_within_speed(keys: HeldKeys, sp: int)
    requires
        0 <= sp,
    ensures
        scale_mul(intent_forward(keys), sp) * scale_mul(intent_forward(keys), sp) + scale_mul(
            intent_right(keys),
            sp,
        ) * scale_mul(intent_right(keys), sp) <= sp * sp,
{
    let s: int = SCALE as int;
    let d: int = DIAG as int;
    let f: int = net_forward(keys);
    let r: int = net_right(keys);
    let va: int = scale_mul(intent_forward(keys), sp);
    let vb: int = scale_mul(intent_right(keys), sp);
    if f != 0 && r != 0 {
        let q: int = d * sp / s;
        assert(intent_forward(keys) == d || intent_forward(keys) == -d);
        assert(intent_right(keys) == d || intent_right(keys) == -d);
        assert(va == q || va == -q);
        assert(vb == q || vb == -q);
        lemma_diagonal_component_sq(sp);
        assert(va * va == q * q && vb * vb == q * q) by (nonlinear_arith)
            requires
                va == q || va == -q,
                vb == q || vb == -q,
        ;
    } else {
        assert(f == 0 || r == 0);
        lemma_div_multiples_vanish(sp, s);
        assert(intent_forward(keys) == f * s && intent_right(keys) == r * s);
        assert(va == f * sp && vb == r * sp) by {
            assert((s * sp) / s == sp);
            assert(s * sp == sp * s) by (nonlinear_arith);
        }
        assert(va * va + vb * vb <= sp * sp) by (nonlinear_arith)
            requires
                va == f * sp,
                vb == r * sp,
                f == 0 || r == 0,
                -1 <= f <= 1,
                -1 <= r <= 1,
        ;
    }
}

/// Scales the movement intent by the effective speed, exactly and
/// component-wise, never exceeding the speed in magnitude.
pub fn desired_velocity(intent: &LocalVec2, speed: i64) -> (v: LocalVec2)
    requires
        -SCALE <= intent.along_forward <= SCALE,
        -SCALE <= intent.along_right <= SCALE,
        0 <= speed <= SPEED_MAX,
    ensures
        v.along_forward == scale_mul(intent.along_forward as int, speed as int),
        v.along_right == scale_mul(intent.along_right as int, speed as int),
        -speed <= v.along_forward <= speed,
        -speed <= v.along_right <= speed,
{
    LocalVec2 {
        along_forward: mul_scale(intent.along_forward, speed),
        along_right: mul_scale(intent.along_right, speed),
    }
}

} // verus!
