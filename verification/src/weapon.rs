//! The kinds of weapons and of what they fire.

use vstd::prelude::*;

verus! {

/// How a weapon strikes.
#[derive(PartialEq, Eq, Clone, Copy, Debug, Structural)]
pub enum WeaponType {
    Projectile,
    Melee,
}

/// What a weapon fires, with the name of the round.
#[derive(PartialEq, Eq, Debug)]
pub enum AmmoType {
    Bullet(String),
    Rocket(String),
    Grenade(String),
}

impl Clone for AmmoType {
    fn clone(&self) -> (copy: Self)
        ensures
            copy == *self,
    {
        match self {
            AmmoType::Bullet(name) => AmmoType::Bullet(name.clone()),
            AmmoType::Rocket(name) => AmmoType::Rocket(name.clone()),
            AmmoType::Grenade(name) => AmmoType::Grenade(name.clone()),
        }
    }
}

} // verus!
