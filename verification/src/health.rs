//! The health of an entity that can be hurt.

use vstd::prelude::*;

verus! {

/// How much health an entity has left, and how much it can have. Health may
/// fall below zero; what becomes of such an entity is the host's concern.
#[derive(PartialEq, Eq, Clone, Copy, Debug, Structural)]
pub struct Health {
    pub health: i32,
    pub max: i32,
}

impl Default for Health {
    fn default() -> (made: Self)
        ensures
            made == (Health { health: 100, max: 100 }),
    {
        Self { health: 100, max: 100 }
    }
}

/// `value` brought into the range of `i32`.
pub open spec fn within_i32(value: int) -> i32 {
    if value < i32::MIN {
        i32::MIN
    } else if value > i32::MAX {
        i32::MAX
    } else {
        value as i32
    }
}

impl Health {
    /// The health after `damage` has been dealt; it stops at the ends of
    /// `i32`.
    pub open spec fn after(self, damage: i32) -> Health {
        Health { health: within_i32(self.health - damage), max: self.max }
    }

    /// Whether nothing is left.
    pub open spec fn spent(self) -> bool {
        self.health <= 0
    }

    /// Deals `damage`, and tells whether nothing is left.
    pub fn hurt(&mut self, damage: i32) -> (dead: bool)
        ensures
            *final(self) == old(self).after(damage),
            dead == final(self).spent(),
    {
        let left: i64 = self.health as i64 - damage as i64;
        self.health = if left < i32::MIN as i64 {
            i32::MIN
        } else if left > i32::MAX as i64 {
            i32::MAX
        } else {
            left as i32
        };
        self.health <= 0
    }
}

} // verus!
