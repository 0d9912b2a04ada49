//! The plain parts of a boid, as a host puts them together when it spawns
//! one.

use crate::flocking::BoidStuff;
use crate::health::Health;
use crate::hunting::BoidAttack;
use crate::quad::QuadCoord;
use crate::vector::{Position, Vector2};
use std::ops::Range;
use vstd::prelude::*;

verus! {

/// Marks an entity as a boid.
#[derive(PartialEq, Eq, Clone, Copy, Debug)]
pub struct Boid {}

/// Where a boid is heading, which way is up for it, and how hard it pushes.
#[derive(PartialEq, Eq, Clone, Copy, Debug, Structural)]
pub struct BoidDirection {
    pub direction: Vector2,
    pub up: Vector2,
    pub force_scale: i64,
}

impl Default for BoidDirection {
    fn default() -> (made: Self)
        ensures
            made == (BoidDirection {
                direction: Vector2::zero(),
                up: Vector2 { x: 0, y: 1 },
                force_scale: 10,
            }),
    {
        Self { direction: Vector2 { x: 0, y: 0 }, up: Vector2 { x: 0, y: 1 }, force_scale: 10 }
    }
}

/// All the parts of a boid.
pub struct BoidBundle {
    pub name: String,
    pub direction_control: BoidDirection,
    pub boid: Boid,
    pub health: Health,
    pub quad_coord: QuadCoord,
    pub position: Position,
    pub boid_attack: BoidAttack,
    pub boid_stuff: BoidStuff,
}

impl BoidBundle {
    /// A boid at `position` that heads in `direction`, in full health, not
    /// indexed yet and ready to attack.
    pub fn new(
        name: String,
        position: Position,
        direction: Vector2,
        max_damage: Range<i32>,
        cool_down_default: i64,
        skill_level: i32,
        boid_stuff: BoidStuff,
    ) -> (made: Self)
        ensures
            made.name == name,
            made.direction_control == (BoidDirection {
                direction,
                up: Vector2 { x: 0, y: 1 },
                force_scale: 5,
            }),
            made.health == (Health { health: 100, max: 100 }),
            made.quad_coord == QuadCoord::unassigned(),
            made.position == position,
            made.boid_attack == (BoidAttack {
                max_damage,
                cool_down: 0,
                cool_down_default,
                skill_level,
            }),
            made.boid_stuff == boid_stuff,
    {
        Self {
            name,
            direction_control: BoidDirection {
                direction,
                up: Vector2 { x: 0, y: 1 },
                force_scale: 5,
            },
            boid: Boid {  },
            boid_stuff,
            health: Health { health: 100, max: 100 },
            boid_attack: BoidAttack { max_damage, cool_down: 0, cool_down_default, skill_level },
            quad_coord: QuadCoord::default(),
            position,
        }
    }
}

} // verus!
