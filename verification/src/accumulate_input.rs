//! The per-frame movement step: reads which movement keys are held,
//! rebuilds the accumulated input, and moves the player.

use vstd::prelude::*;

use crate::math::{Vec2Fix, Vec3Fix};
use crate::player::{AccumulatedInput, Transform, Velocity};

verus! {

/// Which of the four movement keys are held this frame.
#[derive(Clone, Copy, Debug, PartialEq, Eq, Structural)]
pub struct WasdKeys {
    /// Forward.
    pub w: bool,
    /// Left.
    pub a: bool,
    /// Backward.
    pub s: bool,
    /// Right.
    pub d: bool,
}

/// Movement speed, in thousandths of a metre per frame (0.09, about a
/// slow human walk when frames are short).
pub const SPEED: i64 = 90;

/// The net contribution of one axis's two opposed keys: `+1` for the
/// positive key, `-1` for the negative one, `0` for neither or both.
pub open spec fn axis_steps(positive: bool, negative: bool) -> int {
    (if positive { 1int } else { 0int }) - (if negative { 1int } else { 0int })
}

/// Input along the keyboard's horizontal axis (D right, A left).
pub open spec fn move_x(keys: WasdKeys) -> int {
    axis_steps(keys.d, keys.a)
}

/// Input along the keyboard's vertical axis (W up, S down).
pub open spec fn move_y(keys: WasdKeys) -> int {
    axis_steps(keys.w, keys.s)
}

/// One frame of movement.
///
/// The accumulated input is reset to zero and rebuilt from the keys held
/// this frame, so each axis sums the contributions of its two keys. The
/// 2D input is then remapped to the 3D coordinate system, in which y is up
/// and forward is negative z, and scaled by [`SPEED`] to give the
/// velocity, which is added to the rendered translation. Rotation and
/// scale are left alone.
pub fn accumulate_input(
    keys: WasdKeys,
    input: &mut AccumulatedInput,
    velocity: &mut Velocity,
    transform: &mut Transform,
)
    requires
        old(transform).translation.x + SPEED <= i64::MAX,
        old(transform).translation.x - SPEED >= i64::MIN,
        old(transform).translation.z + SPEED <= i64::MAX,
        old(transform).translation.z - SPEED >= i64::MIN,
    ensures
        final(input).movement.x == move_x(keys),
        final(input).movement.y == move_y(keys),
        final(velocity).0.x == move_x(keys) * SPEED,
        final(velocity).0.y == 0,
        final(velocity).0.z == -move_y(keys) * SPEED,
        final(transform).translation.x == old(transform).translation.x + final(velocity).0.x,
        final(transform).translation.y == old(transform).translation.y,
        final(transform).translation.z == old(transform).translation.z + final(velocity).0.z,
        final(transform).rotation == old(transform).rotation,
        final(transform).scale == old(transform).scale,
{
    input.movement = Vec2Fix::zero();
    if keys.w {
        input.movement.y = input.movement.y + 1;
    }
    if keys.s {
        input.movement.y = input.movement.y - 1;
    }
    if keys.a {
        input.movement.x = input.movement.x - 1;
    }
    if keys.d {
        input.movement.x = input.movement.x + 1;
    }

    // Remap the 2D input to the 3D coordinate system: y is up, forward is
    // negative z.
    let input_3d = Vec3Fix {
        x: input.movement.x,
        y: 0,
        z: -input.movement.y,
    };

    velocity.0 = Vec3Fix {
        x: input_3d.x * SPEED,
        y: input_3d.y * SPEED,
        z: input_3d.z * SPEED,
    };
    transform.translation = Vec3Fix {
        x: transform.translation.x + velocity.0.x,
        y: transform.translation.y + velocity.0.y,
        z: transform.translation.z + velocity.0.z,
    };
}

} // verus!
