//! The logical movement input a player delivers each frame, and the device
//! binding each player is spawned with.
//!
//! Device polling and axis resolution belong to the input layer outside this
//! crate; the core consumes only the resolved axis pair. An absent binding
//! resolves to the zero pair, so a player without input simply does not move.

use vstd::prelude::*;

verus! {

/// The axis scale: a logical axis value of `1` is stored as `AXIS_SCALE`, so
/// axes are held in thousandths.
pub const AXIS_SCALE: i64 = 1000;

/// A resolved two-axis movement input, each axis in thousandths of the unit
/// interval.
#[derive(Clone, Copy, PartialEq, Eq, Structural, Debug)]
pub struct AxisPair {
    pub x: i64,
    pub y: i64,
}

impl AxisPair {
    /// Each axis lies in `[-1, 1]` (scaled).
    pub open spec fn in_range(self) -> bool {
        -AXIS_SCALE <= self.x <= AXIS_SCALE && -AXIS_SCALE <= self.y <= AXIS_SCALE
    }

    /// The pair lies on the unit disc: each axis in range and the magnitude at
    /// most one. This is what the input layer's clamping guarantees.
    pub open spec fn wf(self) -> bool {
        self.in_range() && self.x * self.x + self.y * self.y <= AXIS_SCALE * AXIS_SCALE
    }

    /// Both axes are zero: no movement input this frame.
    pub open spec fn is_zero(self) -> bool {
        self.x == 0 && self.y == 0
    }

    /// The zero pair, the resolution of an absent or idle input.
    pub fn zero() -> (a: AxisPair)
        ensures
            a.is_zero(),
            a.wf(),
    {
        AxisPair { x: 0, y: 0 }
    }

}

/// The keyboard half of a player's binding.
#[derive(Clone, Copy, PartialEq, Eq, Structural, Debug)]
pub enum KeyboardScheme {
    /// W/A/S/D steer the ball.
    Wasd,
    /// The arrow keys steer the ball.
    ArrowKeys,
}

/// The devices a player is bound to: the left stick of the gamepad with the
/// player's own id, and one of the two keyboard schemes.
#[derive(Clone, Copy, PartialEq, Eq, Structural, Debug)]
pub struct InputBinding {
    pub gamepad_id: usize,
    pub keyboard: KeyboardScheme,
}

/// The binding a player with identity `id` is spawned with: gamepad `id`, and
/// W/A/S/D for player 0, the arrow keys for player 1.
pub open spec fn binding_of(id: usize) -> InputBinding {
    InputBinding {
        gamepad_id: id,
        keyboard: if id == 0 {
            KeyboardScheme::Wasd
        } else {
            KeyboardScheme::ArrowKeys
        },
    }
}

/// Builds the device binding for the player with identity `id`.
pub fn binding_for(id: usize) -> (b: InputBinding)
    ensures
        b == binding_of(id),
{
    InputBinding {
        gamepad_id: id,
        keyboard: if id == 0 {
            KeyboardScheme::Wasd
        } else {
            KeyboardScheme::ArrowKeys
        },
    }
}

} // verus!
