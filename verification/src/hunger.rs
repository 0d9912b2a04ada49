//! How hungry a boid is, and how much that makes it want to hunt.
//!
//! Hunger runs from 0 to 100 points and is counted in millionths of a point;
//! time is counted in microseconds.

use vstd::prelude::*;

verus! {

/// How many units of hunger make one point.
pub const HUNGER_UNIT: u64 = 1_000_000;

/// The hunger of a boid that could not be hungrier: 100 points.
pub const HUNGER_MAX: u64 = 100_000_000;

/// The score of a boid that could not be hungrier. A score runs from 0 to
/// this value.
pub const SCORE_MAX: u64 = 1_000_000;

/// How many microseconds make one second.
pub const MICROS_PER_SECOND: u64 = 1_000_000;

/// How hungry a boid is, and how fast it gets hungrier: `per_second` units
/// of hunger each second.
#[derive(PartialEq, Eq, Clone, Copy, Debug, Structural)]
pub struct Hunger {
    pub per_second: u64,
    pub hunger: u64,
}

/// `value`, or `limit` where `value` is above it.
pub open spec fn at_most(value: int, limit: int) -> int {
    if value > limit {
        limit
    } else {
        value
    }
}

/// How much hungrier a boid gets in `elapsed_micros` microseconds: the rate
/// times the seconds gone by, less any fraction of a unit.
pub open spec fn growth(per_second: u64, elapsed_micros: u64) -> int {
    (per_second * elapsed_micros) / (MICROS_PER_SECOND as int)
}

impl Hunger {
    /// The hunger does not exceed 100 points.
    pub open spec fn wf(&self) -> bool {
        self.hunger <= HUNGER_MAX
    }

    /// A boid with the given hunger, at most 100 points, and the given rate.
    pub fn new(hunger: u64, per_second: u64) -> (made: Self)
        ensures
            made.wf(),
            made.per_second == per_second,
            made.hunger == at_most(hunger as int, HUNGER_MAX as int),
    {
        Self { hunger: if hunger > HUNGER_MAX { HUNGER_MAX } else { hunger }, per_second }
    }
}

/// Lets `elapsed_micros` microseconds go by for a boid that does not feed:
/// its hunger grows at its rate, up to 100 points and no further.
pub fn hunger_system(hungry: &mut Hunger, elapsed_micros: u64)
    ensures
        final(hungry).wf(),
        final(hungry).per_second == old(hungry).per_second,
        final(hungry).hunger == at_most(
            old(hungry).hunger + growth(old(hungry).per_second, elapsed_micros),
            HUNGER_MAX as int,
        ),
{
    assert(hungry.per_second * elapsed_micros <= 0xffff_ffff_ffff_ffff * 0xffff_ffff_ffff_ffff)
        by (nonlinear_arith)
        requires
            0 <= hungry.per_second <= 0xffff_ffff_ffff_ffff,
            0 <= elapsed_micros <= 0xffff_ffff_ffff_ffff,
    ;
    let product: u128 = (hungry.per_second as u128) * (elapsed_micros as u128);
    let grown: u128 = hungry.hunger as u128 + product / (MICROS_PER_SECOND as u128);
    if grown >= HUNGER_MAX as u128 {
        hungry.hunger = HUNGER_MAX;
    } else {
        hungry.hunger = grown as u64;
    }
}

/// How much a hunger of `hunger` units makes a boid want to hunt: a
/// hundredth of its hunger in points, so that 100 points score
/// [`SCORE_MAX`].
pub open spec fn utility(hunger: u64) -> int {
    at_most(hunger as int, HUNGER_MAX as int) / 100
}

/// Scores how much the boid wants to hunt, from 0 to [`SCORE_MAX`].
pub fn hunger_scorer_system(hungry: &Hunger) -> (score: u64)
    ensures
        score == utility(hungry.hunger),
        0 <= score <= SCORE_MAX,
{
    let capped: u64 = if hungry.hunger > HUNGER_MAX {
        HUNGER_MAX
    } else {
        hungry.hunger
    };
    capped / 100
}

} // verus!
