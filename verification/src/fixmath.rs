//! Fixed-point arithmetic underlying the controller.
//!
//! Lengths and speeds are carried in micro-units (`SCALE` to one unit);
//! angles are carried in nano-radians (`FULL_TURN` to one revolution).

use vstd::prelude::*;

verus! {

use vstd::arithmetic::div_mod::{
    lemma_div_is_ordered, lemma_div_multiples_vanish, lemma_fundamental_div_mod,
    lemma_fundamental_div_mod_converse_mod, lemma_mod_division_less_than_divisor,
};
use vstd::arithmetic::mul::lemma_mul_inequality;

/// Fixed-point micro-units per length/speed unit.
pub const SCALE: i64 = 1_000_000;

/// Micro-units of a diagonal unit-vector component: the largest `d` with
/// `2 * d * d <= SCALE * SCALE`, so a diagonal of `(DIAG, DIAG)` never
/// exceeds unit length.
pub const DIAG: i64 = 707_106;

/// Nano-radians in one full revolution (a discretisation of two pi).
pub const FULL_TURN: i64 = 6_283_185_300;

/// Numerator and denominator of the pointer-delta to angle rate: a delta of
/// `d` micro-units turns by `d * TURN_NUM / TURN_DEN` nano-radians.
pub const TURN_NUM: i64 = 1000;
pub const TURN_DEN: i64 = 180;

/// Largest pointer-motion component a single queued event may carry.
pub const MOTION_EVENT_BOUND: i64 = 1_000_000_000;

/// Largest number of motion events drained in one tick.
pub const MAX_MOTION_EVENTS: usize = 1000;

/// Bound on a summed per-tick look delta component.
pub const LOOK_DELTA_BOUND: i64 = 1_000_000_000_000;

/// Bound on the angle a single tick's look delta can turn by.
pub const PITCH_STEP_BOUND: i64 = 5_600_000_000_000;

/// Largest admissible pitch clamp threshold (half a turn).
pub const PITCH_LIMIT_MAX: i64 = 3_141_592_650;

/// Largest admissible speed, in micro-units per second.
pub const SPEED_MAX: i64 = 1_000_000_000;

/// A world-space vector in micro-units.
#[derive(Clone, Copy, PartialEq, Eq, Debug)]
pub struct Vec3Fix {
    pub x: i64,
    pub y: i64,
    pub z: i64,
}

impl Default for Vec3Fix {
    /// The zero vector.
    fn default() -> (v: Vec3Fix)
        ensures
            v == (Vec3Fix { x: 0, y: 0, z: 0 }),
    {
        Vec3Fix { x: 0, y: 0, z: 0 }
    }
}

/// An angle folded into `[0, FULL_TURN)`.
pub open spec fn wrap_turn(v: int) -> int {
    v % (FULL_TURN as int)
}

/// `a * b / SCALE`, truncated toward zero (`b` non-negative).
pub open spec fn scale_mul(a: int, b: int) -> int {
    if a >= 0 {
        (a * b) / (SCALE as int)
    } else {
        -(((-a) * b) / (SCALE as int))
    }
}

/// The turn, in nano-radians, produced by a look delta of `d` micro-units:
/// `d * TURN_NUM / TURN_DEN`, truncated toward zero.
pub open spec fn look_step(d: int) -> int {
    if d >= 0 {
        (d * (TURN_NUM as int)) / (TURN_DEN as int)
    } else {
        -(((-d) * (TURN_NUM as int)) / (TURN_DEN as int))
    }
}

/// Folds an accumulated angle into `[0, FULL_TURN)`.
pub fn wrap_angle(v: i64) -> (r: i64)
    requires
        i64::MIN < v,
    ensures
        r == wrap_turn(v as int),
        0 <= r < FULL_TURN,
{
    proof {
        lemma_mod_division_less_than_divisor(v as int, FULL_TURN as int);
    }
    if v >= 0 {
        let r: u64 = (v as u64) % (FULL_TURN as u64);
        r as i64
    } else {
        let m: u64 = ((-v) as u64) % (FULL_TURN as u64);
        proof {
            let k: int = -(v as int);
            lemma_fundamental_div_mod(k, FULL_TURN as int);
            let q: int = k / (FULL_TURN as int);
            if m == 0 {
                lemma_fundamental_div_mod_converse_mod(v as int, FULL_TURN as int, -q, 0);
            } else {
                lemma_fundamental_div_mod_converse_mod(
                    v as int,
                    FULL_TURN as int,
                    -q - 1,
                    FULL_TURN - m,
                );
            }
        }
        if m == 0 {
            0
        } else {
            (FULL_TURN as u64 - m) as i64
        }
    }
}

/// `a * b / SCALE` in fixed point, truncated toward zero.
pub fn mul_scale(a: i64, b: i64) -> (r: i64)
    requires
        -SPEED_MAX <= a <= SPEED_MAX,
        0 <= b <= SPEED_MAX,
    ensures
        r == scale_mul(a as int, b as int),
        -SCALE <= a <= SCALE ==> -b <= r <= b,
        0 <= a && b < SCALE ==> r <= a,
        0 <= a ==> 0 <= r,
{
    let mag: u64 = if a >= 0 {
        a as u64
    } else {
        (-a) as u64
    };
    proof {
        lemma_mul_inequality(mag as int, SPEED_MAX as int, b as int);
        lemma_mul_inequality(SPEED_MAX as int, SPEED_MAX as int, b as int);
        lemma_mul_inequality(b as int, SPEED_MAX as int, SPEED_MAX as int);
    }
    let p: u64 = (mag * (b as u64)) / (SCALE as u64);
    proof {
        lemma_div_is_ordered(
            (mag as int) * (b as int),
            (SPEED_MAX as int) * (SPEED_MAX as int),
            SCALE as int,
        );
        if -SCALE <= a <= SCALE {
            lemma_mul_inequality(mag as int, SCALE as int, b as int);
            lemma_div_is_ordered((mag as int) * (b as int), (SCALE as int) * (b as int), SCALE as int);
            lemma_div_multiples_vanish(b as int, SCALE as int);
        }
        if 0 <= a && b < SCALE {
            lemma_mul_inequality(b as int, SCALE as int, mag as int);
            lemma_div_is_ordered((mag as int) * (b as int), (SCALE as int) * (mag as int), SCALE as int);
            lemma_div_multiples_vanish(mag as int, SCALE as int);
        }
    }
    if a >= 0 {
        p as i64
    } else {
        -(p as i64)
    }
}

/// The look rate never swallows a delta: a non-zero delta of either sign
/// turns by a non-zero angle of the same sign.
pub proof fn lemma_look_step_sign(d: int)
    ensures
        d > 0 ==> look_step(d) > 0,
        d < 0 ==> look_step(d) < 0,
        look_step(0) == 0,
{
    if d > 0 {
        lemma_mul_inequality(1, d, TURN_NUM as int);
        lemma_div_is_ordered(TURN_NUM as int, d * (TURN_NUM as int), TURN_DEN as int);
        assert((TURN_NUM as int) / (TURN_DEN as int) == 5);
    }
    if d < 0 {
        let k: int = -d;
        lemma_mul_inequality(1, k, TURN_NUM as int);
        lemma_div_is_ordered(TURN_NUM as int, k * (TURN_NUM as int), TURN_DEN as int);
        assert((TURN_NUM as int) / (TURN_DEN as int) == 5);
    }
}

/// The turn produced by one tick's look delta component, in nano-radians.
/// A non-zero delta always produces a non-zero turn: the rate multiplies by
/// `TURN_NUM` before dividing, so truncation never swallows a whole delta.
pub fn look_increment(d: i64) -> (r: i64)
    requires
        -LOOK_DELTA_BOUND <= d <= LOOK_DELTA_BOUND,
    ensures
        r == look_step(d as int),
        -PITCH_STEP_BOUND <= r <= PITCH_STEP_BOUND,
        d > 0 ==> r > 0,
        d < 0 ==> r < 0,
        d == 0 ==> r == 0,
{
    let mag: u64 = if d >= 0 {
        d as u64
    } else {
        (-d) as u64
    };
    proof {
        lemma_mul_inequality(mag as int, LOOK_DELTA_BOUND as int, TURN_NUM as int);
    }
    let p: u64 = (mag * (TURN_NUM as u64)) / (TURN_DEN as u64);
    proof {
        lemma_div_is_ordered(
            (mag as int) * (TURN_NUM as int),
            (LOOK_DELTA_BOUND as int) * (TURN_NUM as int),
            TURN_DEN as int,
        );
        if mag >= 1 {
            lemma_mul_inequality(1, mag as int, TURN_NUM as int);
            lemma_div_is_ordered(TURN_NUM as int, (mag as int) * (TURN_NUM as int), TURN_DEN as int);
        }
    }
    if d >= 0 {
        p as i64
    } else {
        -(p as i64)
    }
}

} // verus!
