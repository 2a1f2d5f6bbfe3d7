//! What the caller tells the engine about the world.

use vstd::prelude::*;
use crate::maths::Vec2;
use crate::scalar::Scalar;

verus! {

/// The pattern of ninety-seven hundredths: three hundredths of the velocity
/// are lost on every tick.
pub const FRICTION_BITS: u32 = 0x3f78_51ec;

/// The pattern of one: contact with the floor costs nothing more.
pub const GROUND_FRICTION_BITS: u32 = 0x3f80_0000;

/// The pattern of seven hundred and twenty, the side of the default domain.
pub const DOMAIN_SIDE_BITS: u32 = 0x4434_0000;

/// The engine reads these and never writes them.
#[derive(Clone, Copy, Debug)]
pub struct VerletPhysicsProperties {
    /// The share of its velocity that a particle keeps from tick to tick.
    pub friction: Scalar,
    /// The share that a particle resting on the floor keeps besides.
    pub ground_friction: Scalar,
    /// Added to every free particle's position on every tick.
    pub gravity: Vec2,
    /// The corner of the domain with the smallest coordinates.
    pub min: Vec2,
    /// The corner of the domain with the largest coordinates.
    pub max: Vec2,
    pub collisions_on: bool,
}

impl Default for VerletPhysicsProperties {
    fn default() -> (p: Self)
        ensures
            p.friction.bits == FRICTION_BITS,
            p.ground_friction.bits == GROUND_FRICTION_BITS,
            p.gravity == Vec2(Scalar { bits: 0 }, Scalar { bits: 0 }),
            p.min == Vec2(Scalar { bits: 0 }, Scalar { bits: 0 }),
            p.max == Vec2(Scalar { bits: DOMAIN_SIDE_BITS }, Scalar { bits: DOMAIN_SIDE_BITS }),
            p.collisions_on,
    {
        Self {
            friction: Scalar { bits: FRICTION_BITS },
            ground_friction: Scalar { bits: GROUND_FRICTION_BITS },
            gravity: Vec2::zero(),
            min: Vec2::zero(),
            max: Vec2(Scalar { bits: DOMAIN_SIDE_BITS }, Scalar { bits: DOMAIN_SIDE_BITS }),
            collisions_on: true,
        }
    }
}

} // verus!
