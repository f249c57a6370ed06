//! The per-frame force formula: how a resolved movement axis and the frame's
//! elapsed time become the external force written onto a player's body.
//!
//! Forces are held in millionths of a force unit: an axis in thousandths
//! multiplied by a millisecond count is already a millionth-scaled product of
//! the unit axis, the tuning constant and the elapsed seconds, so the formula
//! `axis * MOVE_FORCE * delta_seconds` is computed exactly, with no division.

use vstd::prelude::*;
use crate::input::AxisPair;

verus! {

/// The movement tuning constant, in whole force units.
pub const MOVE_FORCE: i64 = 1500;

/// The force scale: a force of `1` unit is stored as `FORCE_SCALE` (the axis
/// scale times the milliseconds in a second).
pub const FORCE_SCALE: i64 = 1000000;

/// The external force and torque applied to a dynamic body during the next
/// integration step, in millionths of a unit. It is overwritten, never
/// accumulated, each frame.
#[derive(Clone, Copy, PartialEq, Eq, Structural, Debug)]
pub struct ExternalForce {
    pub force_x: i64,
    pub force_y: i64,
    pub torque: i64,
}

impl ExternalForce {
    /// Force and torque are all zero.
    pub open spec fn is_zero(self) -> bool {
        self.force_x == 0 && self.force_y == 0 && self.torque == 0
    }

    /// The zero force, which every player is spawned with.
    pub fn zero() -> (f: ExternalForce)
        ensures
            f.is_zero(),
    {
        ExternalForce { force_x: 0, force_y: 0, torque: 0 }
    }
}

/// The force a frame writes for a player: the axis times `MOVE_FORCE` times
/// the elapsed milliseconds, and zero torque. For every axis pair in range the
/// cast is exact ([`lemma_frame_force_exact`]).
pub open spec fn frame_force(axis: AxisPair, delta_ms: u32) -> ExternalForce {
    ExternalForce {
        force_x: (axis.x * MOVE_FORCE * delta_ms) as i64,
        force_y: (axis.y * MOVE_FORCE * delta_ms) as i64,
        torque: 0,
    }
}

/// The frame force formula stays within `i64`, so [`frame_force`] is exactly
/// `axis * MOVE_FORCE * delta_ms` on both axes: the stored force equals the
/// movement formula with nothing truncated, for every in-range axis and every
/// elapsed time.
pub proof fn lemma_frame_force_exact(axis: AxisPair, delta_ms: u32)
    requires
        axis.in_range(),
    ensures
        frame_force(axis, delta_ms).force_x == axis.x * MOVE_FORCE * delta_ms,
        frame_force(axis, delta_ms).force_y == axis.y * MOVE_FORCE * delta_ms,
        frame_force(axis, delta_ms).torque == 0,
{
    assert(-6442450950000000 <= axis.x * MOVE_FORCE * delta_ms <= 6442450950000000)
        by (nonlinear_arith)
        requires
            -1000 <= axis.x <= 1000,
            MOVE_FORCE == 1500,
            0 <= delta_ms <= 4294967295,
    ;
    assert(-6442450950000000 <= axis.y * MOVE_FORCE * delta_ms <= 6442450950000000)
        by (nonlinear_arith)
        requires
            -1000 <= axis.y <= 1000,
            MOVE_FORCE == 1500,
            0 <= delta_ms <= 4294967295,
    ;
}

/// Computes the force for one player and one frame: the axis vector times
/// `MOVE_FORCE` times the elapsed time, torque zero. A zero axis or a zero
/// elapsed time yields the zero force, and the result depends on nothing but
/// the two arguments.
pub fn movement_force(axis: AxisPair, delta_ms: u32) -> (f: ExternalForce)
    requires
        axis.in_range(),
    ensures
        f == frame_force(axis, delta_ms),
        f.force_x == axis.x * MOVE_FORCE * delta_ms,
        f.force_y == axis.y * MOVE_FORCE * delta_ms,
        f.torque == 0,
        axis.is_zero() || delta_ms == 0 ==> f.is_zero(),
{
    proof {
        lemma_frame_force_exact(axis, delta_ms);
    }
    let per_unit_x = axis.x * MOVE_FORCE;
    let per_unit_y = axis.y * MOVE_FORCE;
    proof {
        assert(-6442450950000000 <= per_unit_x * delta_ms <= 6442450950000000)
            by (nonlinear_arith)
            requires
                -1500000 <= per_unit_x <= 1500000,
                0 <= delta_ms <= 4294967295,
        ;
        assert(-6442450950000000 <= per_unit_y * delta_ms <= 6442450950000000)
            by (nonlinear_arith)
            requires
                -1500000 <= per_unit_y <= 1500000,
                0 <= delta_ms <= 4294967295,
        ;
    }
    let fx = per_unit_x * (delta_ms as i64);
    let fy = per_unit_y * (delta_ms as i64);
    proof {
        assert((axis.x == 0 || delta_ms == 0) ==> axis.x * MOVE_FORCE * delta_ms == 0)
            by (nonlinear_arith)
        ;
        assert((axis.y == 0 || delta_ms == 0) ==> axis.y * MOVE_FORCE * delta_ms == 0)
            by (nonlinear_arith)
        ;
    }
    ExternalForce { force_x: fx, force_y: fy, torque: 0 }
}

} // verus!
