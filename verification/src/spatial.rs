//! The coordinate transform from 2D game space into the engine's 3D
//! positional-audio attribute space.
//!
//! Game space is 2D with the positive y axis pointing down and 10 game units
//! to one meter. The engine expects right-handed 3D coordinates in meters. The
//! transform therefore flips the x axis, keeps y, places everything in the
//! z = 0 plane, and scales units to meters; the forward and up basis vectors
//! are fixed, since a 2D game has no camera roll.
//!
//! All values are exact fixed-point integers: game coordinates in
//! milli-units (thousandths of a game unit), engine coordinates in
//! micro-meters, and direction vectors scaled so that 1_000_000 is one.
//! One milli-unit is one ten-thousandth of a meter, so a milli-unit converts
//! to exactly 100 micro-meters and the transform is free of rounding.

use vstd::prelude::*;

verus! {

/// Micro-meters per game milli-unit: 1_000_000 micro-meters per meter divided
/// by (10 game units per meter times 1000 milli-units per unit).
pub const MICROMETERS_PER_MILLIUNIT: i64 = 100;

/// Fixed-point scale of direction vectors: this value stands for 1.0.
pub const DIRECTION_ONE: i64 = 1000000;

/// The largest game coordinate magnitude (in milli-units) the transform
/// accepts; anything up to this scales to micro-meters without overflowing.
pub const MAX_COORD_MILLI: i64 = 92233720368547758;

/// A 2D point or vector in game space, in milli-units.
#[derive(Clone, Copy, Debug, PartialEq, Eq, Structural)]
pub struct Vec2Milli {
    pub x: i64,
    pub y: i64,
}

/// A 3D point or vector in engine space: micro-meters for positions and
/// velocities, `DIRECTION_ONE`-scaled for direction vectors.
#[derive(Clone, Copy, Debug, PartialEq, Eq, Structural)]
pub struct Vec3Micro {
    pub x: i64,
    pub y: i64,
    pub z: i64,
}

/// The engine's 3D positional-audio attributes for a listener or an event
/// instance.
#[derive(Clone, Copy, Debug, PartialEq, Eq, Structural)]
pub struct Attributes3d {
    pub position: Vec3Micro,
    pub velocity: Vec3Micro,
    pub forward: Vec3Micro,
    pub up: Vec3Micro,
}

/// Whether a game-space vector is small enough to transform exactly.
pub open spec fn coord_in_range(v: Vec2Milli) -> bool {
    -MAX_COORD_MILLI <= v.x <= MAX_COORD_MILLI && -MAX_COORD_MILLI <= v.y <= MAX_COORD_MILLI
}

/// The transform of one 2D game-space vector into the engine's z = 0 plane:
/// the x axis is flipped and units become micro-meters.
pub open spec fn spec_vec3(v: Vec2Milli) -> Vec3Micro {
    Vec3Micro {
        x: -(v.x * MICROMETERS_PER_MILLIUNIT) as i64,
        y: (v.y * MICROMETERS_PER_MILLIUNIT) as i64,
        z: 0,
    }
}

/// The fixed forward basis vector: straight into the screen.
pub open spec fn spec_forward() -> Vec3Micro {
    Vec3Micro { x: 0, y: 0, z: DIRECTION_ONE }
}

/// The fixed up basis vector: negative y, because game-space y points down.
pub open spec fn spec_up() -> Vec3Micro {
    Vec3Micro { x: 0, y: -DIRECTION_ONE as i64, z: 0 }
}

/// The complete 3D attribute set produced from a 2D position/velocity pair.
pub open spec fn spec_3d_attrs(position: Vec2Milli, velocity: Vec2Milli) -> Attributes3d {
    Attributes3d {
        position: spec_vec3(position),
        velocity: spec_vec3(velocity),
        forward: spec_forward(),
        up: spec_up(),
    }
}

/// Converts a 2D game-space position/velocity pair into the engine's 3D
/// positional-audio attributes. Pure and total on its admitted range: the
/// result is exactly `spec_3d_attrs(position, velocity)`.
pub fn build_3d_attrs(position: Vec2Milli, velocity: Vec2Milli) -> (attrs: Attributes3d)
    requires
        coord_in_range(position),
        coord_in_range(velocity),
    ensures
        attrs == spec_3d_attrs(position, velocity),
        attrs.forward == spec_forward(),
        attrs.up == spec_up(),
{
    Attributes3d {
        position: Vec3Micro {
            x: -(position.x * MICROMETERS_PER_MILLIUNIT),
            y: position.y * MICROMETERS_PER_MILLIUNIT,
            z: 0,
        },
        velocity: Vec3Micro {
            x: -(velocity.x * MICROMETERS_PER_MILLIUNIT),
            y: velocity.y * MICROMETERS_PER_MILLIUNIT,
            z: 0,
        },
        forward: Vec3Micro { x: 0, y: 0, z: DIRECTION_ONE },
        up: Vec3Micro { x: 0, y: -DIRECTION_ONE, z: 0 },
    }
}

/// The transform is deterministic, and the forward and up vectors it yields
/// are the two fixed unit vectors whatever the input: two calls on identical
/// inputs agree in every field, and the basis vectors never depend on the
/// position or velocity at all.
pub proof fn lemma_transform_deterministic(
    p1: Vec2Milli,
    v1: Vec2Milli,
    p2: Vec2Milli,
    v2: Vec2Milli,
)
    ensures
        p1 == p2 && v1 == v2 ==> spec_3d_attrs(p1, v1) == spec_3d_attrs(p2, v2),
        spec_3d_attrs(p1, v1).forward == spec_forward(),
        spec_3d_attrs(p1, v1).up == spec_up(),
        spec_3d_attrs(p1, v1).forward == spec_3d_attrs(p2, v2).forward,
        spec_3d_attrs(p1, v1).up == spec_3d_attrs(p2, v2).up,
{
}

} // verus!
