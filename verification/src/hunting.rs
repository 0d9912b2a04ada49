//! The hunt of one boid: it idles until it is hungry enough, searches the
//! cells around it for prey, pursues the nearest, and attacks it until it is
//! fed or the prey is spent. One of the functions here is run per tick,
//! according to the state that the boid is in; run in another state, each
//! leaves the boid as it is.

use crate::dice::roll;
use crate::flocking::BoidStuff;
use crate::health::Health;
use crate::hunger::{Hunger, HUNGER_MAX, HUNGER_UNIT};
use crate::quad::QuadCoord;
use crate::vector::{Position, Vector2};
use rand_chacha::ChaCha8Rng;
use std::ops::Range;
use vstd::prelude::*;

verus! {

/// The hunger below which a boid has fed enough: 10 points.
pub const SATED_BELOW: u64 = 10_000_000;

/// The score from which a boid starts to hunt, unless the host says
/// otherwise: eight tenths of the highest score.
pub const HUNT_THRESHOLD: u64 = 800_000;

/// The squared distance below which a boid can attack its prey, unless the
/// host says otherwise.
pub const CLOSE_ENOUGH: u128 = 5;

/// The entity that a boid hunts. It is a handle and no more: the entity may
/// be gone.
#[derive(PartialEq, Eq, Clone, Copy, Debug, Structural)]
pub struct HuntTarget(pub u64);

/// Where a boid stands in its hunt.
#[derive(PartialEq, Eq, Clone, Copy, Debug, Structural)]
pub enum HuntState {
    Idle,
    Searching,
    Pursuing,
    Attacking,
}

/// The hunt of one boid: its state and the entity it is after.
#[derive(PartialEq, Eq, Clone, Copy, Debug)]
pub struct Hunter {
    pub state: HuntState,
    pub target: Option<HuntTarget>,
}

/// How a boid attacks: the damage of a hit, from `max_damage.start` up to,
/// but not including, `max_damage.end`; the microseconds until it can attack
/// next, and the microseconds it then has to wait again; and the chance of a
/// hit, in hundredths.
#[derive(PartialEq, Eq, Debug)]
pub struct BoidAttack {
    pub max_damage: Range<i32>,
    pub cool_down: i64,
    pub cool_down_default: i64,
    pub skill_level: i32,
}

/// A prey entity as the searching boid sees it.
#[derive(PartialEq, Eq, Clone, Copy, Debug, Structural)]
pub struct Sighting {
    pub entity: u64,
    pub coord: QuadCoord,
    pub position: Position,
}

/// The prey under attack: where it is and the health it has.
#[derive(PartialEq, Eq, Clone, Copy, Debug, Structural)]
pub struct Quarry {
    pub position: Position,
    pub health: Health,
}

/// All that an attack can change.
#[derive(PartialEq, Eq, Clone, Copy, Debug)]
pub struct Fight {
    pub hunter: Hunter,
    pub desired_direction: Vector2,
    pub cool_down: i64,
    pub hunger: Hunger,
    pub quarry: Option<Quarry>,
}

impl Hunter {
    /// A boid that does not hunt.
    pub open spec fn idle() -> Hunter {
        Hunter { state: HuntState::Idle, target: None }
    }

    /// A boid that idles or searches is after no entity.
    pub open spec fn wf(&self) -> bool {
        (self.state == HuntState::Idle || self.state == HuntState::Searching)
            ==> self.target is None
    }

    /// A boid that does not hunt.
    pub fn new() -> (hunter: Hunter)
        ensures
            hunter == Self::idle(),
    {
        Hunter { state: HuntState::Idle, target: None }
    }

    /// Calls the hunt off, in whatever state it is.
    pub fn cancel(&mut self)
        ensures
            *final(self) == Self::idle(),
    {
        self.state = HuntState::Idle;
        self.target = None;
    }
}

impl BoidAttack {
    /// The range of the damage holds a number.
    pub open spec fn wf(&self) -> bool {
        self.max_damage.start < self.max_damage.end
    }
}

impl Clone for BoidAttack {
    fn clone(&self) -> (copy: Self)
        ensures
            copy == *self,
    {
        BoidAttack {
            max_damage: Range { start: self.max_damage.start, end: self.max_damage.end },
            cool_down: self.cool_down,
            cool_down_default: self.cool_down_default,
            skill_level: self.skill_level,
        }
    }
}

/// The boid after it has weighed its hunger: an idle boid whose score has
/// reached the threshold starts to search.
pub open spec fn decided(hunter: Hunter, score: u64, threshold: u64) -> Hunter {
    if hunter.state == HuntState::Idle && score >= threshold {
        Hunter { state: HuntState::Searching, target: None }
    } else {
        hunter
    }
}

/// Lets an idle boid weigh its hunger, given as the score of
/// [`crate::hunger::hunger_scorer_system`]: it starts to search once the
/// score has reached `threshold`.
pub fn hungry_picker_system(hunter: &mut Hunter, score: u64, threshold: u64)
    ensures
        *final(hunter) == decided(*old(hunter), score, threshold),
{
    match hunter.state {
        HuntState::Idle => {
            if score >= threshold {
                hunter.state = HuntState::Searching;
                hunter.target = None;
            }
        },
        _ => {},
    }
}

/// Whether the searching boid in the cell `coord` can see `prey`: the prey
/// stands in the block of three by three cells around the boid's cell. An
/// entity that is not indexed yet sees nothing and is not seen.
pub open spec fn in_sight(coord: QuadCoord, prey: Sighting) -> bool {
    &&& coord != QuadCoord::unassigned()
    &&& prey.coord != QuadCoord::unassigned()
    &&& coord.adjoins(prey.coord.key())
}

/// Whether the boid at `at` prefers `a` to `b` or is as content with it: `a`
/// is nearer, or as near and of no larger handle.
pub open spec fn preferred(at: Position, a: Sighting, b: Sighting) -> bool {
    let da = at.distance_squared_to(a.position);
    let db = at.distance_squared_to(b.position);
    da < db || (da == db && a.entity <= b.entity)
}

/// Whether `found` is the choice of the boid at `at` in the cell `coord`
/// among `prey`: the prey in sight that it prefers to all others in sight,
/// and none only where none is in sight.
pub open spec fn chosen(
    at: Position,
    coord: QuadCoord,
    prey: Seq<Sighting>,
    found: Option<HuntTarget>,
) -> bool {
    match found {
        Some(target) => exists|i: int|
            {
                &&& 0 <= i < prey.len()
                &&& in_sight(coord, #[trigger] prey[i])
                &&& prey[i].entity == target.0
                &&& forall|j: int|
                    0 <= j < prey.len() && in_sight(coord, #[trigger] prey[j]) ==> preferred(
                        at,
                        prey[i],
                        prey[j],
                    )
            },
        None => forall|j: int| 0 <= j < prey.len() ==> !in_sight(coord, #[trigger] prey[j]),
    }
}

/// The prey that the boid at `position` in the cell `coord` goes for: of the
/// prey in the block of three by three cells around it the nearest, and of
/// several that are as near the one with the smallest handle.
pub fn nearest_prey(position: Position, coord: QuadCoord, prey: &Vec<Sighting>) -> (found: Option<
    HuntTarget,
>)
    ensures
        chosen(position, coord, prey@, found),
{
    let mut best: Option<Sighting> = None;
    let mut best_distance: u128 = 0;
    let ghost mut best_index: int = 0;
    let mut i: usize = 0;
    while i < prey.len()
        invariant
            0 <= i <= prey.len(),
            best is None ==> forall|j: int| 0 <= j < i ==> !in_sight(coord, #[trigger] prey@[j]),
            best is Some ==> {
                &&& 0 <= best_index < i
                &&& prey@[best_index] == best.unwrap()
                &&& in_sight(coord, best.unwrap())
                &&& best_distance == position.distance_squared_to(best.unwrap().position)
                &&& forall|j: int|
                    0 <= j < i && in_sight(coord, #[trigger] prey@[j]) ==> preferred(
                        position,
                        best.unwrap(),
                        prey@[j],
                    )
            },
        decreases prey.len() - i,
    {
        let seen = prey[i];
        if !coord.is_unassigned() && !seen.coord.is_unassigned() && coord.is_near(&seen.coord) {
            let distance = position.distance_squared(&seen.position);
            let better = match best {
                None => true,
                Some(held) => distance < best_distance || (distance == best_distance && seen.entity
                    < held.entity),
            };
            if better {
                best = Some(seen);
                best_distance = distance;
                proof {
                    best_index = i as int;
                }
            }
        }
        i += 1;
    }
    match best {
        Some(held) => {
            Some(HuntTarget(held.entity))
        },
        None => None,
    }
}

/// The boid after its search has come up with `found`: a searching boid
/// pursues what it found, and idles again if it found nothing.
pub open spec fn searched(hunter: Hunter, found: Option<HuntTarget>) -> Hunter {
    if hunter.state != HuntState::Searching {
        hunter
    } else if found is Some {
        Hunter { state: HuntState::Pursuing, target: found }
    } else {
        Hunter::idle()
    }
}

/// Lets a searching boid look for prey among `prey`, from where it stands:
/// it goes for the prey that [`nearest_prey`] names and pursues it, or idles
/// again if there is none.
pub fn find_prey_action_system(
    hunter: &mut Hunter,
    position: Position,
    coord: QuadCoord,
    prey: &Vec<Sighting>,
)
    ensures
        old(hunter).state == HuntState::Searching ==> chosen(
            position,
            coord,
            prey@,
            final(hunter).target,
        ),
        *final(hunter) == searched(*old(hunter), final(hunter).target),
{
    match hunter.state {
        HuntState::Searching => {
            let found = nearest_prey(position, coord, prey);
            match found {
                Some(target) => {
                    hunter.target = Some(target);
                    hunter.state = HuntState::Pursuing;
                },
                None => {
                    hunter.target = None;
                    hunter.state = HuntState::Idle;
                },
            }
        },
        _ => {},
    }
}

/// The boid at `at` after one step of a pursuit, with its prey at
/// `target_at`, or gone. A boid without prey to pursue idles again; one that
/// is nearer to its prey than `close_enough`, squared, attacks.
pub open spec fn pursued(
    hunter: Hunter,
    at: Position,
    target_at: Option<Position>,
    close_enough: u128,
) -> Hunter {
    if hunter.state != HuntState::Pursuing {
        hunter
    } else if hunter.target is None || target_at is None {
        Hunter::idle()
    } else if at.distance_squared_to(target_at.unwrap()) < close_enough {
        Hunter { state: HuntState::Attacking, target: hunter.target }
    } else {
        hunter
    }
}

/// Where the boid wants to go after the same step: toward its prey while it
/// still pursues it, and where it wanted to go before otherwise. Only the
/// direction of the vector matters.
pub open spec fn pursuit_heading(
    hunter: Hunter,
    desired_direction: Vector2,
    at: Position,
    target_at: Option<Position>,
    close_enough: u128,
) -> Vector2 {
    if hunter.state == HuntState::Pursuing && pursued(hunter, at, target_at, close_enough).state
        == HuntState::Pursuing {
        at.offset_to(target_at.unwrap())
    } else {
        desired_direction
    }
}

/// Lets a pursuing boid at `position` take one step of its pursuit.
/// `target_position` is where its prey is, or nothing if the prey is gone.
pub fn hunt_prey_action_system(
    hunter: &mut Hunter,
    boid_stuff: &mut BoidStuff,
    position: Position,
    target_position: Option<Position>,
    close_enough: u128,
)
    ensures
        *final(hunter) == pursued(*old(hunter), position, target_position, close_enough),
        *final(boid_stuff) == (BoidStuff {
            desired_direction: pursuit_heading(
                *old(hunter),
                old(boid_stuff).desired_direction,
                position,
                target_position,
                close_enough,
            ),
            ..*old(boid_stuff)
        }),
{
    match hunter.state {
        HuntState::Pursuing => {
            match (hunter.target, target_position) {
                (Some(_), Some(there)) => {
                    if position.distance_squared(&there) < close_enough {
                        hunter.state = HuntState::Attacking;
                    } else {
                        boid_stuff.desired_direction = position.delta(&there);
                    }
                },
                _ => {
                    hunter.state = HuntState::Idle;
                    hunter.target = None;
                },
            }
        },
        _ => {},
    }
}

/// Whether an attack with this roll of the dice, from 1 to 100, hits: the
/// roll does not exceed the skill.
pub open spec fn hits(roll: i32, skill_level: i32) -> bool {
    roll <= skill_level
}

/// `value` brought into `0 ..= HUNGER_MAX`.
pub open spec fn as_hunger(value: int) -> u64 {
    if value < 0 {
        0
    } else if value > HUNGER_MAX {
        HUNGER_MAX
    } else {
        value as u64
    }
}

/// The hunger after a hit of `damage`: two points less for each point of
/// damage, and never below nothing.
pub open spec fn fed(hunger: Hunger, damage: i32) -> Hunger {
    Hunger {
        per_second: hunger.per_second,
        hunger: as_hunger(hunger.hunger - 2 * damage * HUNGER_UNIT),
    }
}

/// What the boid at `at` has made of one step of its attack, after `elapsed`
/// microseconds, where `roll` and `damage` are what the dice gave.
///
/// A boid whose prey is gone idles again. Otherwise it turns toward the prey
/// and waits out what is left of the time between two attacks. Once nothing
/// is left, it has to wait anew and attacks: a roll that hits takes
/// `damage` from the health of the prey and twice as many points from the
/// hunger of the boid, and the hunt is over when the boid has fed enough or
/// the prey is spent.
pub open spec fn attacked(
    before: Fight,
    at: Position,
    cool_down_default: i64,
    skill_level: i32,
    elapsed: u64,
    roll: i32,
    damage: i32,
) -> Fight {
    if before.hunter.state != HuntState::Attacking {
        before
    } else if before.hunter.target is None || before.quarry is None {
        Fight { hunter: Hunter::idle(), ..before }
    } else {
        let quarry = before.quarry.unwrap();
        let toward = at.offset_to(quarry.position);
        if before.cool_down - elapsed > 0 {
            Fight {
                desired_direction: toward,
                cool_down: (before.cool_down - elapsed) as i64,
                ..before
            }
        } else if !hits(roll, skill_level) {
            Fight { desired_direction: toward, cool_down: cool_down_default, ..before }
        } else {
            let health = quarry.health.after(damage);
            let hunger = fed(before.hunger, damage);
            Fight {
                hunter: if hunger.hunger < SATED_BELOW || health.spent() {
                    Hunter::idle()
                } else {
                    before.hunter
                },
                desired_direction: toward,
                cool_down: cool_down_default,
                hunger,
                quarry: Some(Quarry { position: quarry.position, health }),
            }
        }
    }
}

/// The hunger after a hit of `damage`.
fn feed(hunger: &mut Hunger, damage: i32)
    ensures
        *final(hunger) == fed(*old(hunger), damage),
{
    let eaten: i128 = 2_000_000 * (damage as i128);
    let left: i128 = hunger.hunger as i128 - eaten;
    hunger.hunger = if left < 0 {
        0
    } else if left > HUNGER_MAX as i128 {
        HUNGER_MAX
    } else {
        left as u64
    };
}

/// One step of the attack of a boid at `position`, with the dice already
/// thrown: `roll`, from 1 to 100, decides whether an attack hits, and
/// `damage` is what a hit deals. `quarry` is the prey, or nothing if it is
/// gone. See [`attacked`].
pub fn attack_with(
    hunter: &mut Hunter,
    boid_stuff: &mut BoidStuff,
    boid_attack: &mut BoidAttack,
    hunger: &mut Hunger,
    position: Position,
    quarry: &mut Option<Quarry>,
    elapsed: u64,
    roll: i32,
    damage: i32,
)
    ensures
        (Fight {
            hunter: *final(hunter),
            desired_direction: final(boid_stuff).desired_direction,
            cool_down: final(boid_attack).cool_down,
            hunger: *final(hunger),
            quarry: *final(quarry),
        }) == attacked(
            Fight {
                hunter: *old(hunter),
                desired_direction: old(boid_stuff).desired_direction,
                cool_down: old(boid_attack).cool_down,
                hunger: *old(hunger),
                quarry: *old(quarry),
            },
            position,
            old(boid_attack).cool_down_default,
            old(boid_attack).skill_level,
            elapsed,
            roll,
            damage,
        ),
        *final(boid_stuff) == (BoidStuff {
            desired_direction: final(boid_stuff).desired_direction,
            ..*old(boid_stuff)
        }),
        final(boid_attack).max_damage == old(boid_attack).max_damage,
        final(boid_attack).cool_down_default == old(boid_attack).cool_down_default,
        final(boid_attack).skill_level == old(boid_attack).skill_level,
{
    match hunter.state {
        HuntState::Attacking => {
            match (hunter.target, *quarry) {
                (Some(_), Some(prey)) => {
                    boid_stuff.desired_direction = position.delta(&prey.position);
                    let left: i128 = boid_attack.cool_down as i128 - elapsed as i128;
                    if left > 0 {
                        boid_attack.cool_down = left as i64;
                    } else {
                        boid_attack.cool_down = boid_attack.cool_down_default;
                        if roll <= boid_attack.skill_level {
                            let mut health = prey.health;
                            let dead = health.hurt(damage);
                            feed(hunger, damage);
                            *quarry = Some(Quarry { position: prey.position, health });
                            if hunger.hunger < SATED_BELOW || dead {
                                hunter.state = HuntState::Idle;
                                hunter.target = None;
                            }
                        }
                    }
                },
                _ => {
                    hunter.state = HuntState::Idle;
                    hunter.target = None;
                },
            }
        },
        _ => {},
    }
}

/// Why a step of an attack could not be taken to its end.
#[derive(PartialEq, Eq, Clone, Copy, Debug, Structural)]
pub enum AttackError {
    /// The boid has hit, but the range of its damage holds no number.
    EmptyDamageRange,
}

/// Whether the boid throws the dice in this step of its attack: it has prey
/// to attack and nothing is left of the time between two attacks.
pub open spec fn strikes(before: Fight, elapsed: u64) -> bool {
    &&& before.hunter.state == HuntState::Attacking
    &&& before.hunter.target is Some
    &&& before.quarry is Some
    &&& before.cool_down - elapsed <= 0
}

/// What is left of a step of an attack in which the boid at `at` has hit
/// without any damage to deal: it has turned toward its prey and has to wait
/// anew.
pub open spec fn misfired(before: Fight, at: Position, cool_down_default: i64) -> Fight {
    Fight {
        desired_direction: at.offset_to(before.quarry.unwrap().position),
        cool_down: cool_down_default,
        ..before
    }
}

/// Whether `after` and `outcome` are what a step of an attack gives where
/// the dice give `roll` and `damage`. The step fails where the boid hits and
/// the range of its damage holds no number; it is then left as [`misfired`]
/// says. Every other step succeeds and is left as [`attacked`] says, with a
/// damage from the range where the range holds a number.
pub open spec fn attack_thrown(
    before: Fight,
    after: Fight,
    outcome: Result<(), AttackError>,
    at: Position,
    attack: BoidAttack,
    elapsed: u64,
    roll: i32,
    damage: i32,
) -> bool {
    if strikes(before, elapsed) && hits(roll, attack.skill_level) && !attack.wf() {
        &&& outcome == Err::<(), AttackError>(AttackError::EmptyDamageRange)
        &&& after == misfired(before, at, attack.cool_down_default)
    } else {
        &&& outcome is Ok
        &&& attack.wf() ==> attack.max_damage.start <= damage < attack.max_damage.end
        &&& after == attacked(
            before,
            at,
            attack.cool_down_default,
            attack.skill_level,
            elapsed,
            roll,
            damage,
        )
    }
}

/// One step of the attack of a boid at `position`. `quarry` is the prey, or
/// nothing if it is gone. Where the boid attacks in this step, the dice are
/// thrown: one from 1 to 100 for the hit and, on a hit, one over the range of
/// the damage. What the step makes of the boid and its prey is what
/// [`attacked`] gives for those throws. A hit of a boid whose range of
/// damage holds no number cannot be dealt: the step then fails, and only
/// then.
pub fn attack_and_eat_action_system(
    hunter: &mut Hunter,
    boid_stuff: &mut BoidStuff,
    boid_attack: &mut BoidAttack,
    hunger: &mut Hunger,
    position: Position,
    quarry: &mut Option<Quarry>,
    elapsed: u64,
    rng: &mut ChaCha8Rng,
) -> (outcome: Result<(), AttackError>)
    ensures
        exists|roll: i32, damage: i32|
            1 <= roll <= 100 && #[trigger] attack_thrown(
                Fight {
                    hunter: *old(hunter),
                    desired_direction: old(boid_stuff).desired_direction,
                    cool_down: old(boid_attack).cool_down,
                    hunger: *old(hunger),
                    quarry: *old(quarry),
                },
                Fight {
                    hunter: *final(hunter),
                    desired_direction: final(boid_stuff).desired_direction,
                    cool_down: final(boid_attack).cool_down,
                    hunger: *final(hunger),
                    quarry: *final(quarry),
                },
                outcome,
                position,
                *old(boid_attack),
                elapsed,
                roll,
                damage,
            ),
        old(boid_attack).wf() ==> outcome is Ok,
        *final(boid_stuff) == (BoidStuff {
            desired_direction: final(boid_stuff).desired_direction,
            ..*old(boid_stuff)
        }),
        final(boid_attack).max_damage == old(boid_attack).max_damage,
        final(boid_attack).cool_down_default == old(boid_attack).cool_down_default,
        final(boid_attack).skill_level == old(boid_attack).skill_level,
{
    let ghost before = Fight {
        hunter: *hunter,
        desired_direction: boid_stuff.desired_direction,
        cool_down: boid_attack.cool_down,
        hunger: *hunger,
        quarry: *quarry,
    };
    let ghost attack = *boid_attack;
    let prey = match (hunter.state, hunter.target, *quarry) {
        (HuntState::Attacking, Some(_), Some(prey)) => Some(prey),
        _ => None,
    };
    let due = prey.is_some() && boid_attack.cool_down as i128 - elapsed as i128 <= 0;
    let thrown: i32 = if due {
        roll(rng, 1, 101)
    } else {
        1
    };
    let start = boid_attack.max_damage.start;
    if due && thrown <= boid_attack.skill_level && start >= boid_attack.max_damage.end {
        boid_stuff.desired_direction = position.delta(&prey.unwrap().position);
        boid_attack.cool_down = boid_attack.cool_down_default;
        proof {
            let after = Fight {
                hunter: *hunter,
                desired_direction: boid_stuff.desired_direction,
                cool_down: boid_attack.cool_down,
                hunger: *hunger,
                quarry: *quarry,
            };
            assert(attack_thrown(
                before,
                after,
                Err(AttackError::EmptyDamageRange),
                position,
                attack,
                elapsed,
                thrown,
                start,
            ));
        }
        Err(AttackError::EmptyDamageRange)
    } else {
        let damage: i32 = if due && thrown <= boid_attack.skill_level {
            roll(rng, start, boid_attack.max_damage.end)
        } else {
            start
        };
        attack_with(
            hunter,
            boid_stuff,
            boid_attack,
            hunger,
            position,
            quarry,
            elapsed,
            thrown,
            damage,
        );
        proof {
            let after = Fight {
                hunter: *hunter,
                desired_direction: boid_stuff.desired_direction,
                cool_down: boid_attack.cool_down,
                hunger: *hunger,
                quarry: *quarry,
            };
            assert(attack_thrown(before, after, Ok(()), position, attack, elapsed, thrown, damage));
        }
        Ok(())
    }
}

/// What the host has set for all hunts: the score from which a boid starts
/// to hunt, and the squared distance below which it can attack its prey.
#[derive(PartialEq, Eq, Clone, Copy, Debug, Structural)]
pub struct HuntSettings {
    pub threshold: u64,
    pub close_enough: u128,
}

impl Default for HuntSettings {
    fn default() -> (settings: Self)
        ensures
            settings == (HuntSettings { threshold: HUNT_THRESHOLD, close_enough: CLOSE_ENOUGH }),
    {
        HuntSettings { threshold: HUNT_THRESHOLD, close_enough: CLOSE_ENOUGH }
    }
}

/// What a boid perceives in one tick. Each state of the hunt reads its own
/// part: a searching boid the prey about, a pursuing boid the place of its
/// target, an attacking boid its quarry. What has gone is nothing.
pub struct Senses {
    pub prey: Vec<Sighting>,
    pub target_at: Option<Position>,
    pub quarry: Option<Quarry>,
}

/// One tick of the hunt of the boid at `position` in the cell `coord`: the
/// one step that belongs to the state the boid is in, and no other. An idle
/// boid weighs its hunger ([`hungry_picker_system`]), a searching boid looks
/// for prey ([`find_prey_action_system`]), a pursuing boid takes a step of
/// its pursuit ([`hunt_prey_action_system`]), an attacking boid one of its
/// attack ([`attack_and_eat_action_system`]), which may change the quarry in
/// `senses` and is the one step that can fail.
pub fn hunting_system(
    hunter: &mut Hunter,
    boid_stuff: &mut BoidStuff,
    boid_attack: &mut BoidAttack,
    hunger: &mut Hunger,
    position: Position,
    coord: QuadCoord,
    senses: &mut Senses,
    settings: &HuntSettings,
    elapsed: u64,
    rng: &mut ChaCha8Rng,
) -> (outcome: Result<(), AttackError>)
    ensures
        final(senses).prey == old(senses).prey,
        final(senses).target_at == old(senses).target_at,
        final(boid_attack).max_damage == old(boid_attack).max_damage,
        final(boid_attack).cool_down_default == old(boid_attack).cool_down_default,
        final(boid_attack).skill_level == old(boid_attack).skill_level,
        *final(boid_stuff) == (BoidStuff {
            desired_direction: final(boid_stuff).desired_direction,
            ..*old(boid_stuff)
        }),
        old(hunter).state != HuntState::Attacking ==> {
            &&& *final(hunger) == *old(hunger)
            &&& final(boid_attack).cool_down == old(boid_attack).cool_down
            &&& final(senses).quarry == old(senses).quarry
        },
        old(hunter).state != HuntState::Attacking && old(hunter).state != HuntState::Pursuing
            ==> final(boid_stuff).desired_direction == old(boid_stuff).desired_direction,
        old(hunter).state == HuntState::Idle ==> *final(hunter) == decided(
            *old(hunter),
            crate::hunger::utility(old(hunger).hunger) as u64,
            settings.threshold,
        ),
        old(hunter).state == HuntState::Searching ==> {
            &&& chosen(position, coord, old(senses).prey@, final(hunter).target)
            &&& *final(hunter) == searched(*old(hunter), final(hunter).target)
        },
        old(hunter).state == HuntState::Pursuing ==> {
            &&& *final(hunter) == pursued(
                *old(hunter),
                position,
                old(senses).target_at,
                settings.close_enough,
            )
            &&& final(boid_stuff).desired_direction == pursuit_heading(
                *old(hunter),
                old(boid_stuff).desired_direction,
                position,
                old(senses).target_at,
                settings.close_enough,
            )
        },
        old(hunter).state == HuntState::Attacking ==> exists|roll: i32, damage: i32|
            1 <= roll <= 100 && #[trigger] attack_thrown(
                Fight {
                    hunter: *old(hunter),
                    desired_direction: old(boid_stuff).desired_direction,
                    cool_down: old(boid_attack).cool_down,
                    hunger: *old(hunger),
                    quarry: old(senses).quarry,
                },
                Fight {
                    hunter: *final(hunter),
                    desired_direction: final(boid_stuff).desired_direction,
                    cool_down: final(boid_attack).cool_down,
                    hunger: *final(hunger),
                    quarry: final(senses).quarry,
                },
                outcome,
                position,
                *old(boid_attack),
                elapsed,
                roll,
                damage,
            ),
        old(hunter).state != HuntState::Attacking || old(boid_attack).wf() ==> outcome is Ok,
{
    match hunter.state {
        HuntState::Idle => {
            let score = crate::hunger::hunger_scorer_system(hunger);
            hungry_picker_system(hunter, score, settings.threshold);
            Ok(())
        },
        HuntState::Searching => {
            find_prey_action_system(hunter, position, coord, &senses.prey);
            Ok(())
        },
        HuntState::Pursuing => {
            hunt_prey_action_system(
                hunter,
                boid_stuff,
                position,
                senses.target_at,
                settings.close_enough,
            );
            Ok(())
        },
        HuntState::Attacking => attack_and_eat_action_system(
            hunter,
            boid_stuff,
            boid_attack,
            hunger,
            position,
            &mut senses.quarry,
            elapsed,
            rng,
        ),
    }
}

} // verus!
