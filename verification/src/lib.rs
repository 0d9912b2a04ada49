//! Boids that flock and hunt, on whole numbers.
//!
//! A grid files the entities of a world under square cells ([`quad_store`],
//! [`quads`]) and resizes its cells with the crowd. From the cells around it
//! each boid gathers the centre of its flock, the push away from its
//! neighbours and their heading ([`flocking`]), and a boid that is hungry
//! enough ([`hunger`]) searches, pursues and attacks prey ([`hunting`]).
//!
//! The host moves the entities and owns the clock. It hands positions and
//! headings over as whole numbers of a unit of its choice ([`vector`]), time
//! as microseconds and entities as 64-bit handles, and it turns the pulls
//! that the library names ([`steering`]) into a heading.
//!
//! The modules whose names end in `_laws` state what holds of the others for
//! every input.

pub mod cells;
pub mod collisions;
pub mod components;
pub mod dice;
pub mod flocking;
pub mod flocking_laws;
pub mod grid_laws;
pub mod health;
pub mod hunger;
pub mod hunting;
pub mod hunting_laws;
pub mod quad;
pub mod quad_store;
pub mod quads;
pub mod spawn;
pub mod steering;
pub mod tags;
pub mod vector;
pub mod weapon;
