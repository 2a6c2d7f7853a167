//! Orientation integrator: the second stage of the per-tick pipeline.
//!
//! Applies the tick's look delta to the camera pitch and the body yaw
//! independently. Pitch is held back by a one-sided guard at a configurable
//! clamp threshold; yaw is unbounded and simply folded into one revolution.

use vstd::prelude::*;

verus! {

use vstd::arithmetic::div_mod::{
    lemma_add_mod_noop_right, lemma_mod_division_less_than_divisor, lemma_small_mod,
};
use crate::fixmath::{
    FULL_TURN, LOOK_DELTA_BOUND, PITCH_LIMIT_MAX, PITCH_STEP_BOUND,
};
use crate::fixmath::{look_increment, look_step, wrap_angle, wrap_turn};

/// Configuration of the look axes.
#[derive(Clone, Copy, PartialEq, Eq, Debug)]
pub struct LookConfig {
    /// The pitch clamp threshold, in nano-radians: once the pitch stands at
    /// or beyond it, further deltas in the same direction are discarded.
    pub pitch_limit: i64,
}

impl LookConfig {
    /// A usable configuration: a positive threshold of at most half a turn.
    pub open spec fn wf(self) -> bool {
        0 < self.pitch_limit <= PITCH_LIMIT_MAX
    }
}

/// Pitch admissible under a configuration: within the clamp threshold, save
/// for at most one tick's overshoot (the guard discards deltas only once
/// the threshold is reached, so a single step may carry past it).
pub open spec fn pitch_in_range(pitch: int, limit: int) -> bool {
    -(limit + PITCH_STEP_BOUND) <= pitch <= limit + PITCH_STEP_BOUND
}

/// One tick of the pitch axis. The guard is one-sided: at or beyond the
/// threshold, a delta pushing further is discarded outright, while a delta
/// in the recovering direction is always applied in full.
pub open spec fn pitch_step(pitch: int, dy: int, limit: int) -> int {
    if pitch >= limit && dy > 0 {
        pitch
    } else if pitch <= -limit && dy < 0 {
        pitch
    } else {
        pitch + look_step(dy)
    }
}

/// One tick of the yaw axis: unbounded rotation, folded into one turn.
pub open spec fn yaw_step(yaw: int, dx: int) -> int {
    wrap_turn(yaw + look_step(dx))
}

/// The yaw after a whole sequence of per-tick look deltas.
pub open spec fn yaw_after(yaw: int, ds: Seq<int>) -> int
    decreases ds.len(),
{
    if ds.len() == 0 {
        yaw
    } else {
        yaw_after(yaw_step(yaw, ds.first()), ds.drop_first())
    }
}

/// The total signed turn of a sequence of per-tick look deltas.
pub open spec fn total_turn(ds: Seq<int>) -> int
    decreases ds.len(),
{
    if ds.len() == 0 {
        0
    } else {
        look_step(ds.first()) + total_turn(ds.drop_first())
    }
}

/// Integrates one tick's vertical look delta into the camera pitch.
pub fn integrate_pitch(pitch: i64, dy: i64, config: &LookConfig) -> (r: i64)
    requires
        config.wf(),
        pitch_in_range(pitch as int, config.pitch_limit as int),
        -LOOK_DELTA_BOUND <= dy <= LOOK_DELTA_BOUND,
    ensures
        r == pitch_step(pitch as int, dy as int, config.pitch_limit as int),
        pitch_in_range(r as int, config.pitch_limit as int),
{
    if pitch >= config.pitch_limit && dy > 0 {
        pitch
    } else if pitch <= -config.pitch_limit && dy < 0 {
        pitch
    } else {
        pitch + look_increment(dy)
    }
}

/// Integrates one tick's horizontal look delta into the body yaw.
pub fn integrate_yaw(yaw: i64, dx: i64) -> (r: i64)
    requires
        0 <= yaw < FULL_TURN,
        -LOOK_DELTA_BOUND <= dx <= LOOK_DELTA_BOUND,
    ensures
        r == yaw_step(yaw as int, dx as int),
        0 <= r < FULL_TURN,
{
    wrap_angle(yaw + look_increment(dx))
}

/// The pitch guard, spelled out: at the positive clamp boundary any further
/// positive delta leaves the pitch unchanged, while a negative delta always
/// moves it - recovery is never locked out. Symmetrically at the negative
/// boundary.
pub proof fn lemma_pitch_guard(pitch: int, dy: int, limit: int)
    requires
        0 < limit,
    ensures
        pitch >= limit && dy >= 0 ==> pitch_step(pitch, dy, limit) == pitch,
        pitch >= limit && dy < 0 ==> pitch_step(pitch, dy, limit) < pitch,
        pitch <= -limit && dy <= 0 ==> pitch_step(pitch, dy, limit) == pitch,
        pitch <= -limit && dy > 0 ==> pitch_step(pitch, dy, limit) > pitch,
{
    if dy > 0 {
        crate::fixmath::lemma_look_step_sign(dy);
    }
    if dy < 0 {
        crate::fixmath::lemma_look_step_sign(dy);
    }
}

/// Folding a sequence of yaw steps is the same as wrapping the sum of the
/// turns they produce.
proof fn lemma_yaw_after_is_total(yaw: int, ds: Seq<int>)
    requires
        0 <= yaw < FULL_TURN,
    ensures
        yaw_after(yaw, ds) == wrap_turn(yaw + total_turn(ds)),
    decreases ds.len(),
{
    if ds.len() == 0 {
        lemma_small_mod(yaw as nat, FULL_TURN as nat);
    } else {
        let s0: int = look_step(ds.first());
        lemma_mod_division_less_than_divisor(yaw + s0, FULL_TURN as int);
        lemma_yaw_after_is_total(yaw_step(yaw, ds.first()), ds.drop_first());
        lemma_add_mod_noop_right(
            total_turn(ds.drop_first()),
            yaw + s0,
            FULL_TURN as int,
        );
    }
}

/// Yaw is unbounded but periodic: a sequence of look deltas whose turns sum
/// to a whole number of revolutions brings the body yaw back exactly to its
/// starting value.
pub proof fn lemma_yaw_full_turns(yaw: int, ds: Seq<int>)
    requires
        0 <= yaw < FULL_TURN,
        total_turn(ds) % (FULL_TURN as int) == 0,
    ensures
        yaw_after(yaw, ds) == yaw,
{
    lemma_yaw_after_is_total(yaw, ds);
    lemma_add_mod_noop_right(yaw, total_turn(ds), FULL_TURN as int);
    lemma_small_mod(yaw as nat, FULL_TURN as nat);
}

} // verus!
