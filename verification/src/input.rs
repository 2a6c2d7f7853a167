//! Input interpreter: the first stage of the per-tick pipeline.
//!
//! Reads the held-key state and the queued pointer-motion events and
//! produces a movement intent in the body's local frame, jump and crouch
//! flags, and the tick's accumulated look delta.

use vstd::prelude::*;

verus! {

use crate::fixmath::{
    DIAG, LOOK_DELTA_BOUND, MAX_MOTION_EVENTS, MOTION_EVENT_BOUND, SCALE,
};

/// One queued pointer-motion event, in micro-units.
#[derive(Clone, Copy, PartialEq, Eq, Debug)]
pub struct MotionDelta {
    pub dx: i64,
    pub dy: i64,
}

/// The directional keys held this tick.
#[derive(Clone, Copy, PartialEq, Eq, Debug)]
pub struct HeldKeys {
    pub forward: bool,
    pub back: bool,
    pub left: bool,
    pub right: bool,
}

/// Everything the input source hands the controller for one tick.
#[derive(Clone, PartialEq, Eq, Debug)]
pub struct InputSnapshot {
    pub keys: HeldKeys,
    /// Whether the jump key is currently held (level, not edge).
    pub jump_held: bool,
    /// Held-state of each key in the configured crouch-key set.
    pub crouch_keys_held: Vec<bool>,
    /// The pointer-motion events queued since the previous tick.
    pub motion: Vec<MotionDelta>,
}

/// The summed, sign-inverted pointer motion of one tick, in micro-units.
#[derive(Clone, Copy, PartialEq, Eq, Debug)]
pub struct LookDelta {
    pub dx: i64,
    pub dy: i64,
}

/// A vector in the body's local frame, in micro-units.
#[derive(Clone, Copy, PartialEq, Eq, Debug)]
pub struct LocalVec2 {
    pub along_forward: i64,
    pub along_right: i64,
}

/// What the input interpreter hands to the later stages.
#[derive(Clone, Copy, PartialEq, Eq, Debug)]
pub struct InputIntent {
    pub movement_intent: LocalVec2,
    pub jump_requested: bool,
    pub crouch_requested: bool,
    pub look_delta: LookDelta,
}

/// Net forward pull of the held keys: opposite keys cancel.
pub open spec fn net_forward(k: HeldKeys) -> int {
    (if k.forward {
        1int
    } else {
        0int
    }) - (if k.back {
        1int
    } else {
        0int
    })
}

/// Net rightward pull of the held keys: opposite keys cancel.
pub open spec fn net_right(k: HeldKeys) -> int {
    (if k.right {
        1int
    } else {
        0int
    }) - (if k.left {
        1int
    } else {
        0int
    })
}

/// The forward component of the movement intent: the sum of held unit basis
/// vectors, clamped to unit length (a diagonal scales each axis to `DIAG`).
pub open spec fn intent_forward(k: HeldKeys) -> int {
    if net_forward(k) != 0 && net_right(k) != 0 {
        net_forward(k) * (DIAG as int)
    } else {
        net_forward(k) * (SCALE as int)
    }
}

/// The rightward component of the movement intent.
pub open spec fn intent_right(k: HeldKeys) -> int {
    if net_forward(k) != 0 && net_right(k) != 0 {
        net_right(k) * (DIAG as int)
    } else {
        net_right(k) * (SCALE as int)
    }
}

/// Sum of the raw (not yet inverted) horizontal motion of the queued events.
pub open spec fn sum_dx(s: Seq<MotionDelta>) -> int
    decreases s.len(),
{
    if s.len() == 0 {
        0
    } else {
        sum_dx(s.drop_last()) + s.last().dx
    }
}

/// Sum of the raw (not yet inverted) vertical motion of the queued events.
pub open spec fn sum_dy(s: Seq<MotionDelta>) -> int
    decreases s.len(),
{
    if s.len() == 0 {
        0
    } else {
        sum_dy(s.drop_last()) + s.last().dy
    }
}

/// Whether any key of a configured key set is held.
pub open spec fn any_true(s: Seq<bool>) -> bool {
    exists|i: int| 0 <= i < s.len() && s[i]
}

/// A snapshot the input source may legitimately hand over: the motion queue
/// is one tick's worth of events, each of bounded magnitude.
pub open spec fn snapshot_bounded(snap: InputSnapshot) -> bool {
    &&& snap.motion@.len() <= MAX_MOTION_EVENTS
    &&& forall|i: int|
        0 <= i < snap.motion@.len() ==> {
            &&& -MOTION_EVENT_BOUND <= (#[trigger] snap.motion@[i]).dx <= MOTION_EVENT_BOUND
            &&& -MOTION_EVENT_BOUND <= snap.motion@[i].dy <= MOTION_EVENT_BOUND
        }
}

/// An intent the later stages can rely on: the movement vector is within
/// the unit square and the look delta within one tick's bound.
pub open spec fn intent_bounded(intent: InputIntent) -> bool {
    &&& -SCALE <= intent.movement_intent.along_forward <= SCALE
    &&& -SCALE <= intent.movement_intent.along_right <= SCALE
    &&& -LOOK_DELTA_BOUND <= intent.look_delta.dx <= LOOK_DELTA_BOUND
    &&& -LOOK_DELTA_BOUND <= intent.look_delta.dy <= LOOK_DELTA_BOUND
}

/// Movement intent of the held keys: each held directional key contributes a
/// unit basis vector of the body's local frame; the sum is clamped to unit
/// length. No key held gives the zero vector, not an error.
pub fn movement_intent(keys: &HeldKeys) -> (v: LocalVec2)
    ensures
        v.along_forward == intent_forward(*keys),
        v.along_right == intent_right(*keys),
{
    let f: i64 = (if keys.forward {
        1i64
    } else {
        0i64
    }) - (if keys.back {
        1i64
    } else {
        0i64
    });
    let r: i64 = (if keys.right {
        1i64
    } else {
        0i64
    }) - (if keys.left {
        1i64
    } else {
        0i64
    });
    if f != 0 && r != 0 {
        LocalVec2 { along_forward: f * DIAG, along_right: r * DIAG }
    } else {
        LocalVec2 { along_forward: f * SCALE, along_right: r * SCALE }
    }
}

/// Whether any key of the configured crouch-key set is held.
pub fn any_held(keys: &Vec<bool>) -> (r: bool)
    ensures
        r == any_true(keys@),
{
    let mut i: usize = 0;
    while i < keys.len()
        invariant
            0 <= i <= keys@.len(),
            forall|j: int| 0 <= j < i ==> !keys@[j],
        decreases keys@.len() - i,
    {
        if keys[i] {
            return true;
        }
        i = i + 1;
    }
    false
}

/// The input interpreter: collapses one tick's raw input into an intent.
///
/// The look delta is the negated sum of the queued motion events (sign
/// inversion gives conventional look-up/look-right semantics); jump and
/// crouch are level-triggered, re-read every tick.
pub fn interpret_input(snap: &InputSnapshot) -> (intent: InputIntent)
    requires
        snapshot_bounded(*snap),
    ensures
        intent.movement_intent.along_forward == intent_forward(snap.keys),
        intent.movement_intent.along_right == intent_right(snap.keys),
        intent.jump_requested == snap.jump_held,
        intent.crouch_requested == any_true(snap.crouch_keys_held@),
        intent.look_delta.dx == -sum_dx(snap.motion@),
        intent.look_delta.dy == -sum_dy(snap.motion@),
        intent_bounded(intent),
{
    let movement: LocalVec2 = movement_intent(&snap.keys);
    let crouch: bool = any_held(&snap.crouch_keys_held);

    let mut sx: i64 = 0;
    let mut sy: i64 = 0;
    let mut i: usize = 0;
    while i < snap.motion.len()
        invariant
            0 <= i <= snap.motion@.len(),
            snapshot_bounded(*snap),
            sx == sum_dx(snap.motion@.subrange(0, i as int)),
            sy == sum_dy(snap.motion@.subrange(0, i as int)),
            -(MOTION_EVENT_BOUND * i) <= sx <= MOTION_EVENT_BOUND * i,
            -(MOTION_EVENT_BOUND * i) <= sy <= MOTION_EVENT_BOUND * i,
        decreases snap.motion@.len() - i,
    {
        proof {
            assert(snap.motion@.subrange(0, i + 1).drop_last() =~= snap.motion@.subrange(
                0,
                i as int,
            ));
            assert(MOTION_EVENT_BOUND * (i + 1) == MOTION_EVENT_BOUND * i + MOTION_EVENT_BOUND)
                by (nonlinear_arith);
            assert(0 <= MOTION_EVENT_BOUND * i <= 1_000_000_000_000int) by (nonlinear_arith)
                requires
                    0 <= i <= 1000,
                    MOTION_EVENT_BOUND == 1_000_000_000i64,
            ;
            assert(-MOTION_EVENT_BOUND <= snap.motion@[i as int].dx <= MOTION_EVENT_BOUND);
            assert(-MOTION_EVENT_BOUND <= snap.motion@[i as int].dy <= MOTION_EVENT_BOUND);
        }
        sx = sx + snap.motion[i].dx;
        sy = sy + snap.motion[i].dy;
        i = i + 1;
    }
    proof {
        assert(snap.motion@.subrange(0, snap.motion@.len() as int) =~= snap.motion@);
        assert(0 <= MOTION_EVENT_BOUND * i <= 1_000_000_000_000int) by (nonlinear_arith)
            requires
                0 <= i <= 1000,
                MOTION_EVENT_BOUND == 1_000_000_000i64,
        ;
    }
    InputIntent {
        movement_intent: movement,
        jump_requested: snap.jump_held,
        crouch_requested: crouch,
        look_delta: LookDelta { dx: -sx, dy: -sy },
    }
}

/// The movement intent is never longer than one unit, and it is zero
/// exactly when no movement key is held or the held keys cancel.
pub proof fn lemma_movement_intent_clamped(keys: HeldKeys)
    ensures
        intent_forward(keys) * intent_forward(keys) + intent_right(keys) * intent_right(keys)
            <= (SCALE as int) * (SCALE as int),
        (intent_forward(keys) == 0 && intent_right(keys) == 0) <==> (net_forward(keys) == 0
            && net_right(keys) == 0),
        (net_forward(keys) == 0 && net_right(keys) == 0) <==> (keys.forward == keys.back
            && keys.left == keys.right),
{
    let f: int = net_forward(keys);
    let r: int = net_right(keys);
    let a: int = intent_forward(keys);
    let b: int = intent_right(keys);
    assert(-1 <= f <= 1);
    assert(-1 <= r <= 1);
    assert((SCALE as int) * (SCALE as int) == 1_000_000_000_000int) by (nonlinear_arith)
        requires
            SCALE == 1_000_000i64,
    ;
    if f != 0 && r != 0 {
        assert(a == 707_106int || a == -707_106int);
        assert(b == 707_106int || b == -707_106int);
        assert(a * a + b * b <= 1_000_000_000_000int) by (nonlinear_arith)
            requires
                a == 707_106int || a == -707_106int,
                b == 707_106int || b == -707_106int,
        ;
    } else {
        assert(a == 0 || b == 0);
        assert(-1_000_000int <= a <= 1_000_000int);
        assert(-1_000_000int <= b <= 1_000_000int);
        assert(a * a + b * b <= 1_000_000_000_000int) by (nonlinear_arith)
            requires
                a == 0 || b == 0,
                -1_000_000int <= a <= 1_000_000int,
                -1_000_000int <= b <= 1_000_000int,
        ;
    }
}

} // verus!
