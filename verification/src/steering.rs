//! What the steering of a boid is made of. The steering itself, with its
//! unit vectors and angles, is the host's; this says which vectors go into
//! it.

use crate::flocking::BoidStuff;
use crate::vector::{Position, Vector2};
use vstd::prelude::*;

verus! {

/// The four pulls on a boid, before the host brings each to unit length
/// and weighs it. A pull of zero is no pull.
#[derive(PartialEq, Eq, Clone, Copy, Debug, Structural)]
pub struct SteeringPulls {
    /// From the boid toward the centre of its flock.
    pub cohesion: Vector2,
    /// Away from the boids that crowd it.
    pub separation: Vector2,
    /// The mean heading of the boids it travels with. This one is weighed as
    /// it is and not brought to unit length.
    pub alignment: Vector2,
    /// Where the boid wants to go by itself.
    pub desired: Vector2,
}

/// The pulls on the boid at `at` that has gathered `stuff`: each rule of the
/// flock pulls only if the boid has counted another boid under it.
pub open spec fn pulls(stuff: BoidStuff, at: Position) -> SteeringPulls {
    SteeringPulls {
        cohesion: if stuff.cohesion_boids > 0 {
            at.offset_to(stuff.flock_center)
        } else {
            Vector2::zero()
        },
        separation: if stuff.separation_boids > 0 {
            stuff.separation_vector
        } else {
            Vector2::zero()
        },
        alignment: if stuff.alignment_boids > 0 {
            stuff.alignment_direction
        } else {
            Vector2::zero()
        },
        desired: stuff.desired_direction,
    }
}

/// The pulls on the boid at `position` that has gathered `boid_stuff`.
pub fn steering_pulls(boid_stuff: &BoidStuff, position: Position) -> (made: SteeringPulls)
    ensures
        made == pulls(*boid_stuff, position),
{
    SteeringPulls {
        cohesion: if boid_stuff.cohesion_boids > 0 {
            position.delta(&boid_stuff.flock_center)
        } else {
            Vector2::origin()
        },
        separation: if boid_stuff.separation_boids > 0 {
            boid_stuff.separation_vector
        } else {
            Vector2::origin()
        },
        alignment: if boid_stuff.alignment_boids > 0 {
            boid_stuff.alignment_direction
        } else {
            Vector2::origin()
        },
        desired: boid_stuff.desired_direction,
    }
}

} // verus!
