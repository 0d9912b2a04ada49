//! What a collision between two entities means.

use crate::health::Health;
use vstd::prelude::*;

verus! {

/// Which marks an entity carries, as far as a collision depends on them.
#[derive(PartialEq, Eq, Clone, Copy, Debug, Structural)]
pub struct Marks {
    pub projectile: bool,
    pub boid: bool,
    pub player: bool,
    pub wall: bool,
    pub place: bool,
}

/// A shot has hit a boid.
#[derive(PartialEq, Eq, Clone, Copy, Debug, Structural)]
pub struct BulletHitBoidEvent {
    pub bullet: u64,
    pub boid: u64,
}

/// A shot has hit a wall or a place.
#[derive(PartialEq, Eq, Clone, Copy, Debug, Structural)]
pub struct BulletHitSomethingEvent {
    pub bullet: u64,
    pub something: u64,
}

/// A shot has hit the player.
#[derive(PartialEq, Eq, Clone, Copy, Debug, Structural)]
pub struct BulletHitPlayerEvent {
    pub bullet: u64,
    pub player: u64,
}

/// A boid has run into the player.
#[derive(PartialEq, Eq, Clone, Copy, Debug, Structural)]
pub struct BoidHitPlayerEvent {
    pub boid: u64,
    pub player: u64,
}

/// The player has come to a place.
#[derive(PartialEq, Eq, Clone, Copy, Debug, Structural)]
pub struct PlaceVisitedEvent {
    pub place: u64,
    pub player: u64,
}

/// What a collision means.
#[derive(PartialEq, Eq, Clone, Copy, Debug, Structural)]
pub enum CollisionEvent {
    BulletHitBoid(BulletHitBoidEvent),
    BulletHitSomething(BulletHitSomethingEvent),
    BulletHitPlayer(BulletHitPlayerEvent),
    BoidHitPlayer(BoidHitPlayerEvent),
    PlaceVisited(PlaceVisitedEvent),
}

/// The damage that a shot deals to a boid.
pub const BULLET_DAMAGE: i32 = 50;

/// What a shot `bullet` means for the entity `other` that it has hit:
/// nothing, unless that is a boid, the player, a wall or a place, in this
/// order.
pub open spec fn bullet_outcome(bullet: u64, other: u64, marks: Marks) -> Option<CollisionEvent> {
    if marks.boid {
        Some(CollisionEvent::BulletHitBoid(BulletHitBoidEvent { bullet, boid: other }))
    } else if marks.player {
        Some(CollisionEvent::BulletHitPlayer(BulletHitPlayerEvent { bullet, player: other }))
    } else if marks.wall || marks.place {
        Some(
            CollisionEvent::BulletHitSomething(BulletHitSomethingEvent { bullet, something: other }),
        )
    } else {
        None
    }
}

/// What it means for the player that it has met the entity `other`:
/// nothing, unless that is a boid or a place, in this order.
pub open spec fn player_outcome(player: u64, other: u64, marks: Marks) -> Option<CollisionEvent> {
    if marks.boid {
        Some(CollisionEvent::BoidHitPlayer(BoidHitPlayerEvent { boid: other, player }))
    } else if marks.place {
        Some(CollisionEvent::PlaceVisited(PlaceVisitedEvent { place: other, player }))
    } else {
        None
    }
}

/// What a collision of two entities means. A collision with a shot is
/// judged as one of the shot, whatever else is in it; of two shots the first
/// is the one that hits. A collision without a shot means something only to
/// the player; of two players the first is the one that meets the other.
pub open spec fn collision_outcome(
    entity1: u64,
    marks1: Marks,
    entity2: u64,
    marks2: Marks,
) -> Option<CollisionEvent> {
    if marks1.projectile {
        bullet_outcome(entity1, entity2, marks2)
    } else if marks2.projectile {
        bullet_outcome(entity2, entity1, marks1)
    } else if marks1.player {
        player_outcome(entity1, entity2, marks2)
    } else if marks2.player {
        player_outcome(entity2, entity1, marks1)
    } else {
        None
    }
}

fn bullet_hit(bullet: u64, other: u64, marks: Marks) -> (event: Option<CollisionEvent>)
    ensures
        event == bullet_outcome(bullet, other, marks),
{
    if marks.boid {
        Some(CollisionEvent::BulletHitBoid(BulletHitBoidEvent { bullet, boid: other }))
    } else if marks.player {
        Some(CollisionEvent::BulletHitPlayer(BulletHitPlayerEvent { bullet, player: other }))
    } else if marks.wall || marks.place {
        Some(
            CollisionEvent::BulletHitSomething(BulletHitSomethingEvent { bullet, something: other }),
        )
    } else {
        None
    }
}

fn player_met(player: u64, other: u64, marks: Marks) -> (event: Option<CollisionEvent>)
    ensures
        event == player_outcome(player, other, marks),
{
    if marks.boid {
        Some(CollisionEvent::BoidHitPlayer(BoidHitPlayerEvent { boid: other, player }))
    } else if marks.place {
        Some(CollisionEvent::PlaceVisited(PlaceVisitedEvent { place: other, player }))
    } else {
        None
    }
}

/// Tells what the collision of `entity1` and `entity2` means, from the marks
/// that each carries.
pub fn collision_started_event_listener(
    entity1: u64,
    marks1: Marks,
    entity2: u64,
    marks2: Marks,
) -> (event: Option<CollisionEvent>)
    ensures
        event == collision_outcome(entity1, marks1, entity2, marks2),
{
    if marks1.projectile {
        bullet_hit(entity1, entity2, marks2)
    } else if marks2.projectile {
        bullet_hit(entity2, entity1, marks1)
    } else if marks1.player {
        player_met(entity1, entity2, marks2)
    } else if marks2.player {
        player_met(entity2, entity1, marks1)
    } else {
        None
    }
}

/// Deals the damage of a shot to a boid, and tells whether the boid has
/// nothing left and is to go.
pub fn bullet_hit_boid_listener(health: &mut Health) -> (despawn: bool)
    ensures
        *final(health) == old(health).after(BULLET_DAMAGE),
        despawn == final(health).spent(),
{
    health.hurt(BULLET_DAMAGE)
}

} // verus!
