//! The marks that a host puts on its entities, and the record of which of
//! them one entity carries.

use vstd::prelude::*;

verus! {

/// Marks the entity that the player steers.
#[derive(PartialEq, Eq, Clone, Copy, Debug)]
pub struct Player {}

/// Marks an entity that boids may hunt.
#[derive(PartialEq, Eq, Clone, Copy, Debug)]
pub struct Prey {}

/// Marks a wall.
#[derive(PartialEq, Eq, Clone, Copy, Debug, Default)]
pub struct Wall;

/// Marks water.
#[derive(PartialEq, Eq, Clone, Copy, Debug, Default)]
pub struct Water;

/// Marks an entity that stands in water.
#[derive(PartialEq, Eq, Clone, Copy, Debug)]
pub struct InWater {}

/// Marks a shot under way.
#[derive(PartialEq, Eq, Clone, Copy, Debug)]
pub struct Projectile {}

/// Marks an entity that keeps its trigger pulled.
#[derive(PartialEq, Eq, Clone, Copy, Debug)]
pub struct TriggerPulled {}

/// Marks the line along which the player aims.
#[derive(PartialEq, Eq, Clone, Copy, Debug)]
pub struct AimLine {}

/// Marks the camera of the game.
#[derive(PartialEq, Eq, Clone, Copy, Debug)]
pub struct GameCam {}

/// Marks the entity that the camera follows.
#[derive(PartialEq, Eq, Clone, Copy, Debug)]
pub struct CameraFollow {}

/// Marks the place where the player starts.
#[derive(PartialEq, Eq, Clone, Copy, Debug, Default)]
pub struct PlayerStart;

/// Marks a boid that is to look for prey.
#[derive(PartialEq, Eq, Clone, Copy, Debug)]
pub struct FindPrey {}

/// All the parts of a wall of the map.
#[derive(PartialEq, Eq, Clone, Copy, Debug, Default)]
pub struct WallBundle {
    pub wall: Wall,
}

/// All the parts of a stretch of water of the map.
#[derive(PartialEq, Eq, Clone, Copy, Debug, Default)]
pub struct WaterBundle {
    pub water: Water,
}

/// All the parts of the place where the player starts.
#[derive(PartialEq, Eq, Clone, Copy, Debug, Default)]
pub struct PlayerStartBundle {
    pub player_start: PlayerStart,
}

/// A place that the player can visit, with the name it is known by.
#[derive(Debug)]
pub struct Place {
    pub id: String,
}

/// What is told of a place.
#[derive(Debug)]
pub struct Lore {
    pub text: String,
}

} // verus!
