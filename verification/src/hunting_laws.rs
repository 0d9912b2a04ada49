//! What holds of a hunt whatever the prey does.

use crate::hunger::{at_most, growth, Hunger, HUNGER_MAX};
use crate::hunting::{
    attacked, chosen, decided, fed, hits, in_sight, pursued, searched, Fight, HuntState,
    HuntTarget, Hunter, Sighting,
};
use crate::quad::QuadCoord;
use crate::vector::Position;
use vstd::prelude::*;

verus! {

/// What a pursuing boid sees in one tick: where it is, and where its prey
/// is, or that the prey is gone.
pub struct Glimpse {
    pub at: Position,
    pub target_at: Option<Position>,
}

/// The boid after one step of its pursuit for each glimpse of `trace`, in
/// turn.
pub open spec fn pursuit(hunter: Hunter, trace: Seq<Glimpse>, close_enough: u128) -> Hunter
    decreases trace.len(),
{
    if trace.len() == 0 {
        hunter
    } else {
        pursued(
            pursuit(hunter, trace.drop_last(), close_enough),
            trace.last().at,
            trace.last().target_at,
            close_enough,
        )
    }
}

/// What is left, after `ticks` ticks, of a distance of `reach` that shrinks
/// by `speed` per tick.
pub open spec fn gap(reach: nat, speed: nat, ticks: int) -> int {
    if reach - ticks * speed > 0 {
        reach - ticks * speed
    } else {
        0
    }
}

/// The boid closes in on its prey: as long as the prey is there, it is at
/// most `reach` away in the first glimpse, and at least `speed` nearer with
/// every further one.
pub open spec fn closes_in(trace: Seq<Glimpse>, reach: nat, speed: nat) -> bool {
    forall|k: int|
        0 <= k < trace.len() && (#[trigger] trace[k]).target_at is Some ==> trace[k].at.distance_squared_to(
            trace[k].target_at.unwrap(),
        ) <= gap(reach, speed, k) * gap(reach, speed, k)
}

/// A pursuit ends in an attack or in idling, or it goes on; it never turns
/// into a search.
proof fn pursuit_stays_a_hunt(hunter: Hunter, trace: Seq<Glimpse>, close_enough: u128)
    requires
        hunter.state == HuntState::Pursuing,
    ensures
        pursuit(hunter, trace, close_enough).state != HuntState::Searching,
    decreases trace.len(),
{
    if trace.len() > 0 {
        pursuit_stays_a_hunt(hunter, trace.drop_last(), close_enough);
    }
}

/// A pursuit in which the boid closes in on its prey ends: once as many
/// ticks have gone by as the closing speed needs to cover the first
/// distance, and one more, the boid attacks, or it idles because the prey has
/// gone.
pub proof fn pursuit_ends(
    hunter: Hunter,
    trace: Seq<Glimpse>,
    close_enough: u128,
    reach: nat,
    speed: nat,
)
    requires
        hunter.state == HuntState::Pursuing,
        close_enough > 0,
        trace.len() >= 1,
        closes_in(trace, reach, speed),
        (trace.len() - 1) * speed >= reach,
    ensures
        pursuit(hunter, trace, close_enough).state == HuntState::Attacking || pursuit(
            hunter,
            trace,
            close_enough,
        ).state == HuntState::Idle,
{
    pursuit_stays_a_hunt(hunter, trace.drop_last(), close_enough);
    let k = trace.len() - 1;
    assert(trace[k] == trace.last());
    assert(gap(reach, speed, k) == 0);
}

/// A hunt ends within a number of ticks that is bounded by the first
/// distance over the closing speed. An idle boid whose score has reached the
/// threshold, with prey in sight, takes one tick to start its search and one
/// to find its prey; if it then closes in on the prey, the pursuit that
/// follows ends as [`pursuit_ends`] says: in an attack, or in idling because
/// the prey has gone.
pub proof fn hunt_ends_within_bound(
    score: u64,
    threshold: u64,
    at: Position,
    coord: QuadCoord,
    prey: Seq<Sighting>,
    found: Option<HuntTarget>,
    trace: Seq<Glimpse>,
    close_enough: u128,
    reach: nat,
    speed: nat,
)
    requires
        score >= threshold,
        exists|i: int| 0 <= i < prey.len() && in_sight(coord, #[trigger] prey[i]),
        chosen(at, coord, prey, found),
        close_enough > 0,
        trace.len() >= 1,
        closes_in(trace, reach, speed),
        (trace.len() - 1) * speed >= reach,
    ensures
        decided(Hunter::idle(), score, threshold).state == HuntState::Searching,
        searched(decided(Hunter::idle(), score, threshold), found).state == HuntState::Pursuing,
        ({
            let end = pursuit(
                searched(decided(Hunter::idle(), score, threshold), found),
                trace,
                close_enough,
            );
            end.state == HuntState::Attacking || end.state == HuntState::Idle
        }),
{
    let searching = decided(Hunter::idle(), score, threshold);
    let pursuing = searched(searching, found);
    pursuit_ends(pursuing, trace, close_enough, reach, speed);
}

/// With a skill of 100 or more every roll of the dice from 1 to 100 hits;
/// with a skill of 0 or less none does.
pub proof fn skill_at_its_bounds(roll: i32, skill_level: i32)
    requires
        1 <= roll <= 100,
    ensures
        skill_level >= 100 ==> hits(roll, skill_level),
        skill_level <= 0 ==> !hits(roll, skill_level),
{
}

/// A boid that does not feed gets no less hungry as time goes by, and no
/// hungrier than 100 points.
pub proof fn hunger_only_grows(hungry: Hunger, elapsed_micros: u64)
    requires
        hungry.wf(),
    ensures
        hungry.hunger <= at_most(
            hungry.hunger + growth(hungry.per_second, elapsed_micros),
            HUNGER_MAX as int,
        ) <= HUNGER_MAX,
{
    assert(growth(hungry.per_second, elapsed_micros) >= 0) by (nonlinear_arith)
        requires
            growth(hungry.per_second, elapsed_micros) == (hungry.per_second * elapsed_micros)
                / 1_000_000,
            hungry.per_second >= 0,
            elapsed_micros >= 0,
    ;
}

/// No step of a hunt leaves a boid that idles or searches with a target:
/// a target that is of no use any more is dropped in the step that finds it
/// so.
pub proof fn steps_drop_a_target_of_no_use(
    hunter: Hunter,
    score: u64,
    threshold: u64,
    found: Option<HuntTarget>,
    at: Position,
    target_at: Option<Position>,
    close_enough: u128,
)
    requires
        hunter.wf(),
    ensures
        decided(hunter, score, threshold).wf(),
        searched(hunter, found).wf(),
        pursued(hunter, at, target_at, close_enough).wf(),
{
}

/// An attack leaves the boid in order as well: its hunger within 100
/// points, and a target only while it still attacks.
pub proof fn attack_keeps_the_boid_in_order(
    before: Fight,
    at: Position,
    cool_down_default: i64,
    skill_level: i32,
    elapsed: u64,
    roll: i32,
    damage: i32,
)
    requires
        before.hunter.wf(),
        before.hunger.wf(),
    ensures
        attacked(before, at, cool_down_default, skill_level, elapsed, roll, damage).hunter.wf(),
        attacked(before, at, cool_down_default, skill_level, elapsed, roll, damage).hunger.wf(),
        fed(before.hunger, damage).wf(),
{
}

} // verus!
