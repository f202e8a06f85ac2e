//! The components attached to the player entity, and its spawn state.

use vstd::prelude::*;

use crate::math::{QuatFix, Vec2Fix, Vec3Fix};

verus! {

/// The player's velocity in the physics simulation, in thousandths of a
/// metre per frame.
#[derive(Clone, Copy, Debug, PartialEq, Eq, Structural)]
pub struct Velocity(pub Vec3Fix);

/// The player's movement input, accumulated over all frames that ran since
/// the last time the physics simulation was advanced.
///
/// Each axis of `movement` is a whole number of key steps: `+1` for the
/// positive key of the axis, `-1` for the negative one, `0` for neither
/// or both.
#[derive(Clone, Copy, Debug, PartialEq, Eq, Structural)]
pub struct AccumulatedInput {
    /// The player's movement input along the two keyboard axes.
    pub movement: Vec2Fix,
}

/// The actual position of the player in the physics simulation, in
/// thousandths of a metre. This is separate from the transform, which is
/// merely a visual representation.
#[derive(Clone, Copy, Debug, PartialEq, Eq, Structural)]
pub struct PhysicalTranslation(pub Vec3Fix);

/// The value the physical translation had in the last fixed timestep,
/// kept for interpolating the rendered position between physics steps.
#[derive(Clone, Copy, Debug, PartialEq, Eq, Structural)]
pub struct PreviousPhysicalTranslation(pub Vec3Fix);

/// The rendered position, orientation and size of the player.
#[derive(Clone, Copy, Debug, PartialEq, Eq, Structural)]
pub struct Transform {
    /// Position, in thousandths of a metre.
    pub translation: Vec3Fix,
    /// Orientation.
    pub rotation: QuatFix,
    /// Size along each axis, in thousandths of a unit.
    pub scale: Vec3Fix,
}

impl Default for Velocity {
    /// A player at rest.
    fn default() -> (r: Self)
        ensures
            r.0 == (Vec3Fix { x: 0, y: 0, z: 0 }),
    {
        Velocity(Vec3Fix { x: 0, y: 0, z: 0 })
    }
}

impl Default for AccumulatedInput {
    /// No keys pressed yet.
    fn default() -> (r: Self)
        ensures
            r.movement == (Vec2Fix { x: 0, y: 0 }),
    {
        AccumulatedInput { movement: Vec2Fix { x: 0, y: 0 } }
    }
}

impl Default for PhysicalTranslation {
    /// The origin.
    fn default() -> (r: Self)
        ensures
            r.0 == (Vec3Fix { x: 0, y: 0, z: 0 }),
    {
        PhysicalTranslation(Vec3Fix { x: 0, y: 0, z: 0 })
    }
}

impl Default for PreviousPhysicalTranslation {
    /// The origin.
    fn default() -> (r: Self)
        ensures
            r.0 == (Vec3Fix { x: 0, y: 0, z: 0 }),
    {
        PreviousPhysicalTranslation(Vec3Fix { x: 0, y: 0, z: 0 })
    }
}

/// Height above the floor at which the player starts, in thousandths of a
/// metre (1.5 m).
pub const PLAYER_START_HEIGHT: i64 = 1500;

/// Uniform scale applied to the player's cube, in thousandths (3.5).
pub const PLAYER_SCALE: i64 = 3500;

/// Everything attached to the player entity when it is spawned.
#[derive(Clone, Copy, Debug, PartialEq, Eq, Structural)]
pub struct PlayerState {
    pub input: AccumulatedInput,
    pub velocity: Velocity,
    pub physical_translation: PhysicalTranslation,
    pub previous_physical_translation: PreviousPhysicalTranslation,
    pub transform: Transform,
}

/// The state the player is spawned with: every vector component zero but
/// for the starting height and the cube's scale, and the identity rotation.
pub open spec fn is_initial_player(p: PlayerState) -> bool {
    &&& p.input.movement == (Vec2Fix { x: 0, y: 0 })
    &&& p.velocity.0 == (Vec3Fix { x: 0, y: 0, z: 0 })
    &&& p.physical_translation.0 == (Vec3Fix { x: 0, y: 0, z: 0 })
    &&& p.previous_physical_translation.0 == (Vec3Fix { x: 0, y: 0, z: 0 })
    &&& p.transform.translation == (Vec3Fix { x: 0, y: PLAYER_START_HEIGHT, z: 0 })
    &&& p.transform.rotation == (QuatFix { x: 0, y: 0, z: 0, w: 1000 })
    &&& p.transform.scale == (Vec3Fix { x: PLAYER_SCALE, y: PLAYER_SCALE, z: PLAYER_SCALE })
}

/// Builds the state the player entity is spawned with: default components
/// at a fixed starting transform.
pub fn initial_player() -> (p: PlayerState)
    ensures
        is_initial_player(p),
{
    PlayerState {
        input: AccumulatedInput::default(),
        velocity: Velocity::default(),
        physical_translation: PhysicalTranslation::default(),
        previous_physical_translation: PreviousPhysicalTranslation::default(),
        transform: Transform {
            translation: Vec3Fix { x: 0, y: PLAYER_START_HEIGHT, z: 0 },
            rotation: QuatFix::identity(),
            scale: Vec3Fix::splat(PLAYER_SCALE),
        },
    }
}

} // verus!
