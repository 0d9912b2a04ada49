//! What a boid gathers from the entities near it: the centre of its flock,
//! the push away from those that crowd it, and the heading of those it
//! travels with.

use crate::quad::QuadCoord;
use crate::quad_store::QuadStore;
use crate::vector::{Position, Vector2};
use std::collections::HashMap;
use vstd::prelude::*;
use vstd::std_specs::hash::*;

verus! {

/// What the flocking of one boid reads of another entity.
#[derive(PartialEq, Eq, Clone, Copy, Debug, Structural)]
pub struct Neighbor {
    pub entity: u64,
    pub position: Position,
    pub direction: Vector2,
}

/// The reach of each rule of the flock, what one boid has gathered under
/// each, and where the boid wants to go by itself.
#[derive(PartialEq, Eq, Clone, Copy, Debug, Structural)]
pub struct BoidStuff {
    pub cohesion_boids: usize,
    pub separation_boids: usize,
    pub desired_direction: Vector2,
    pub flock_center: Position,
    pub separation_vector: Vector2,
    pub alignment_direction: Vector2,
    pub separation_distance: u64,
    pub cohesion_distance: u64,
    pub alignment_distance: u64,
    pub alignment_boids: usize,
}

impl Default for BoidStuff {
    fn default() -> (stuff: Self)
        ensures
            stuff == (BoidStuff {
                cohesion_boids: 0,
                separation_boids: 0,
                alignment_boids: 0,
                flock_center: Position { x: 0, y: 0 },
                separation_vector: Vector2::zero(),
                alignment_direction: Vector2::zero(),
                desired_direction: Vector2::zero(),
                separation_distance: 25,
                cohesion_distance: 100,
                alignment_distance: 75,
            }),
    {
        Self {
            cohesion_boids: 0,
            separation_boids: 0,
            alignment_boids: 0,
            flock_center: Position { x: 0, y: 0 },
            separation_vector: Vector2 { x: 0, y: 0 },
            alignment_direction: Vector2 { x: 0, y: 0 },
            desired_direction: Vector2 { x: 0, y: 0 },
            separation_distance: 25,
            cohesion_distance: 100,
            alignment_distance: 75,
        }
    }
}

/// The three rules of the flock.
#[derive(PartialEq, Eq, Clone, Copy, Debug, Structural)]
pub enum Rule {
    Cohesion,
    Separation,
    Alignment,
}

/// Whether `other` is nearer to `at` than `distance`.
pub open spec fn within(at: Position, other: Position, distance: u64) -> bool {
    at.distance_squared_to(other) < distance * distance
}

/// Whether `other` counts under `rule` for the boid `me` at `at`. The boid
/// itself never counts; separation reaches only those that cohesion reaches.
pub open spec fn applies(
    rule: Rule,
    stuff: BoidStuff,
    me: u64,
    at: Position,
    other: Neighbor,
) -> bool {
    other.entity != me && match rule {
        Rule::Cohesion => within(at, other.position, stuff.cohesion_distance),
        Rule::Separation => within(at, other.position, stuff.cohesion_distance) && within(
            at,
            other.position,
            stuff.separation_distance,
        ),
        Rule::Alignment => within(at, other.position, stuff.alignment_distance),
    }
}

/// What `other` adds under `rule`, along x: its position for cohesion, the
/// way from it to the boid for separation, its heading for alignment.
pub open spec fn share_x(rule: Rule, at: Position, other: Neighbor) -> int {
    match rule {
        Rule::Cohesion => other.position.x as int,
        Rule::Separation => at.x - other.position.x,
        Rule::Alignment => other.direction.x as int,
    }
}

/// What `other` adds under `rule`, along y.
pub open spec fn share_y(rule: Rule, at: Position, other: Neighbor) -> int {
    match rule {
        Rule::Cohesion => other.position.y as int,
        Rule::Separation => at.y - other.position.y,
        Rule::Alignment => other.direction.y as int,
    }
}

/// How many of `others` count under `rule`.
pub open spec fn tally(
    rule: Rule,
    stuff: BoidStuff,
    me: u64,
    at: Position,
    others: Seq<Neighbor>,
) -> nat
    decreases others.len(),
{
    if others.len() == 0 {
        0
    } else {
        tally(rule, stuff, me, at, others.drop_last()) + if applies(
            rule,
            stuff,
            me,
            at,
            others.last(),
        ) {
            1nat
        } else {
            0nat
        }
    }
}

/// What those of `others` that count under `rule` add up to, along x.
pub open spec fn total_x(
    rule: Rule,
    stuff: BoidStuff,
    me: u64,
    at: Position,
    others: Seq<Neighbor>,
) -> int
    decreases others.len(),
{
    if others.len() == 0 {
        0
    } else {
        total_x(rule, stuff, me, at, others.drop_last()) + if applies(
            rule,
            stuff,
            me,
            at,
            others.last(),
        ) {
            share_x(rule, at, others.last())
        } else {
            0
        }
    }
}

/// What those of `others` that count under `rule` add up to, along y.
pub open spec fn total_y(
    rule: Rule,
    stuff: BoidStuff,
    me: u64,
    at: Position,
    others: Seq<Neighbor>,
) -> int
    decreases others.len(),
{
    if others.len() == 0 {
        0
    } else {
        total_y(rule, stuff, me, at, others.drop_last()) + if applies(
            rule,
            stuff,
            me,
            at,
            others.last(),
        ) {
            share_y(rule, at, others.last())
        } else {
            0
        }
    }
}

/// `total / count`, rounded toward zero; zero where nothing was counted.
pub open spec fn mean(total: int, count: nat) -> int {
    if count == 0 {
        0
    } else if total >= 0 {
        total / (count as int)
    } else {
        -((-total) / (count as int))
    }
}

proof fn lemma_mean_bounds(total: int, count: nat, low: int, high: int)
    requires
        low <= 0 <= high,
        count * low <= total <= count * high,
    ensures
        low <= mean(total, count) <= high,
{
    if count > 0 {
        let c = count as int;
        if total >= 0 {
            let q = total / c;
            vstd::arithmetic::div_mod::lemma_fundamental_div_mod(total, c);
            assert(0 <= q <= high) by (nonlinear_arith)
                requires
                    total == c * q + total % c,
                    0 <= total % c < c,
                    0 <= total <= c * high,
                    c > 0,
            ;
        } else {
            let q = (-total) / c;
            vstd::arithmetic::div_mod::lemma_fundamental_div_mod(-total, c);
            assert(c * (-low) == -(c * low)) by (nonlinear_arith);
            assert(0 <= q <= -low) by (nonlinear_arith)
                requires
                    -total == c * q + (-total) % c,
                    0 <= (-total) % c < c,
                    0 <= -total <= c * (-low),
                    c > 0,
            ;
        }
    }
}

/// `total / count`, rounded toward zero; zero where nothing was counted.
fn mean_of(total: i128, count: usize) -> (m: i128)
    ensures
        m == mean(total as int, count as nat),
{
    if count == 0 {
        0
    } else {
        total / (count as i128)
    }
}

/// The mean of what those of `others` that count under `rule` add, along x
/// and along y.
pub open spec fn mean_share(
    rule: Rule,
    stuff: BoidStuff,
    me: u64,
    at: Position,
    others: Seq<Neighbor>,
) -> (int, int) {
    (
        mean(total_x(rule, stuff, me, at, others), tally(rule, stuff, me, at, others)),
        mean(total_y(rule, stuff, me, at, others), tally(rule, stuff, me, at, others)),
    )
}

/// What the boid `me` at `at` has gathered from `others`: under each rule
/// the number of those that count and the mean of what they add. The reach
/// of the rules and where the boid wants to go stay as in `stuff`.
pub open spec fn gathered(stuff: BoidStuff, me: u64, at: Position, others: Seq<Neighbor>) -> BoidStuff {
    let center = mean_share(Rule::Cohesion, stuff, me, at, others);
    let away = mean_share(Rule::Separation, stuff, me, at, others);
    let heading = mean_share(Rule::Alignment, stuff, me, at, others);
    BoidStuff {
        cohesion_boids: tally(Rule::Cohesion, stuff, me, at, others) as usize,
        separation_boids: tally(Rule::Separation, stuff, me, at, others) as usize,
        alignment_boids: tally(Rule::Alignment, stuff, me, at, others) as usize,
        flock_center: Position { x: center.0 as i32, y: center.1 as i32 },
        separation_vector: Vector2 { x: away.0 as i64, y: away.1 as i64 },
        alignment_direction: Vector2 { x: heading.0 as i64, y: heading.1 as i64 },
        ..stuff
    }
}

/// Gathers, for the boid `entity` at `position`, what `others` add under the
/// three rules of the flock. Whatever the boid had gathered before is
/// dropped. Each of `others` that is not the boid itself and is nearer than
/// the reach of a rule counts under that rule (for separation it must also be
/// within the reach of cohesion). The flock's centre is the mean position of
/// those that count for cohesion, the separation vector the mean of the
/// ways from those that count for separation to the boid, the alignment
/// direction the mean heading of those that count for alignment; a mean over
/// nothing is zero.
pub fn gather(
    boid_stuff: &mut BoidStuff,
    entity: u64,
    position: Position,
    others: &Vec<Neighbor>,
)
    ensures
        *final(boid_stuff) == gathered(*old(boid_stuff), entity, position, others@),
{
    let ghost stuff = *boid_stuff;
    let cohesion_sq: u128 = square(boid_stuff.cohesion_distance);
    let separation_sq: u128 = square(boid_stuff.separation_distance);
    let alignment_sq: u128 = square(boid_stuff.alignment_distance);
    let mut cohesion_boids: usize = 0;
    let mut separation_boids: usize = 0;
    let mut alignment_boids: usize = 0;
    let mut center_x: i128 = 0;
    let mut center_y: i128 = 0;
    let mut away_x: i128 = 0;
    let mut away_y: i128 = 0;
    let mut heading_x: i128 = 0;
    let mut heading_y: i128 = 0;
    let mut i: usize = 0;
    while i < others.len()
        invariant
            0 <= i <= others.len(),
            cohesion_sq == stuff.cohesion_distance * stuff.cohesion_distance,
            separation_sq == stuff.separation_distance * stuff.separation_distance,
            alignment_sq == stuff.alignment_distance * stuff.alignment_distance,
            cohesion_boids <= i,
            separation_boids <= i,
            alignment_boids <= i,
            cohesion_boids == tally(Rule::Cohesion, stuff, entity, position, others@.take(i as int)),
            separation_boids == tally(
                Rule::Separation,
                stuff,
                entity,
                position,
                others@.take(i as int),
            ),
            alignment_boids == tally(
                Rule::Alignment,
                stuff,
                entity,
                position,
                others@.take(i as int),
            ),
            center_x == total_x(Rule::Cohesion, stuff, entity, position, others@.take(i as int)),
            center_y == total_y(Rule::Cohesion, stuff, entity, position, others@.take(i as int)),
            away_x == total_x(Rule::Separation, stuff, entity, position, others@.take(i as int)),
            away_y == total_y(Rule::Separation, stuff, entity, position, others@.take(i as int)),
            heading_x == total_x(Rule::Alignment, stuff, entity, position, others@.take(i as int)),
            heading_y == total_y(Rule::Alignment, stuff, entity, position, others@.take(i as int)),
            cohesion_boids * (i32::MIN as int) <= center_x <= cohesion_boids * (i32::MAX as int),
            cohesion_boids * (i32::MIN as int) <= center_y <= cohesion_boids * (i32::MAX as int),
            separation_boids * (-0xffff_ffff) <= away_x <= separation_boids * 0xffff_ffff,
            separation_boids * (-0xffff_ffff) <= away_y <= separation_boids * 0xffff_ffff,
            alignment_boids * (i64::MIN as int) <= heading_x <= alignment_boids * (i64::MAX as int),
            alignment_boids * (i64::MIN as int) <= heading_y <= alignment_boids * (i64::MAX as int),
        decreases others.len() - i,
    {
        let other = others[i];
        proof {
            assert(others@.take(i + 1).drop_last() =~= others@.take(i as int));
        }
        if other.entity != entity {
            let distance_sq: u128 = position.distance_squared(&other.position);
            if distance_sq < cohesion_sq {
                center_x = center_x + other.position.x as i128;
                center_y = center_y + other.position.y as i128;
                cohesion_boids = cohesion_boids + 1;
                if distance_sq < separation_sq {
                    away_x = away_x + (position.x as i128 - other.position.x as i128);
                    away_y = away_y + (position.y as i128 - other.position.y as i128);
                    separation_boids = separation_boids + 1;
                }
            }
            if distance_sq < alignment_sq {
                heading_x = heading_x + other.direction.x as i128;
                heading_y = heading_y + other.direction.y as i128;
                alignment_boids = alignment_boids + 1;
            }
        }
        i += 1;
    }
    proof {
        assert(others@.take(others.len() as int) =~= others@);
        lemma_mean_bounds(center_x as int, cohesion_boids as nat, i32::MIN as int, i32::MAX as int);
        lemma_mean_bounds(center_y as int, cohesion_boids as nat, i32::MIN as int, i32::MAX as int);
        lemma_mean_bounds(away_x as int, separation_boids as nat, -0xffff_ffff, 0xffff_ffff);
        lemma_mean_bounds(away_y as int, separation_boids as nat, -0xffff_ffff, 0xffff_ffff);
        lemma_mean_bounds(
            heading_x as int,
            alignment_boids as nat,
            i64::MIN as int,
            i64::MAX as int,
        );
        lemma_mean_bounds(
            heading_y as int,
            alignment_boids as nat,
            i64::MIN as int,
            i64::MAX as int,
        );
    }
    boid_stuff.cohesion_boids = cohesion_boids;
    boid_stuff.separation_boids = separation_boids;
    boid_stuff.alignment_boids = alignment_boids;
    boid_stuff.flock_center = Position {
        x: mean_of(center_x, cohesion_boids) as i32,
        y: mean_of(center_y, cohesion_boids) as i32,
    };
    boid_stuff.separation_vector = Vector2 {
        x: mean_of(away_x, separation_boids) as i64,
        y: mean_of(away_y, separation_boids) as i64,
    };
    boid_stuff.alignment_direction = Vector2 {
        x: mean_of(heading_x, alignment_boids) as i64,
        y: mean_of(heading_y, alignment_boids) as i64,
    };
}

/// `distance * distance`.
fn square(distance: u64) -> (sq: u128)
    ensures
        sq == distance * distance,
{
    assert(distance * distance <= 0xffff_ffff_ffff_ffff * 0xffff_ffff_ffff_ffff) by (nonlinear_arith)
        requires
            0 <= distance <= 0xffff_ffff_ffff_ffff,
    ;
    (distance as u128) * (distance as u128)
}

/// A boid as the flocking of a whole population reads and writes it.
#[derive(PartialEq, Eq, Clone, Copy, Debug, Structural)]
pub struct FlockMember {
    pub entity: u64,
    pub position: Position,
    pub quad_coord: QuadCoord,
    pub direction: Vector2,
    pub boid_stuff: BoidStuff,
}

/// What a boid shows of itself to the others.
pub open spec fn shown(member: FlockMember) -> Neighbor {
    Neighbor { entity: member.entity, position: member.position, direction: member.direction }
}

/// `others` names what the boids of `boids` in the block of three by three
/// cells around `coord` show of themselves: nothing else, and no handle
/// twice, and none of those boids' handles is missing.
pub open spec fn names_the_block(
    cells: Map<(i32, i32), Set<u64>>,
    coord: QuadCoord,
    boids: Seq<FlockMember>,
    others: Seq<Neighbor>,
) -> bool {
    &&& forall|k: int|
        0 <= k < others.len() ==> QuadStore::block_members(cells, coord).contains(
            (#[trigger] others[k]).entity,
        ) && exists|j: int| 0 <= j < boids.len() && others[k] == shown(#[trigger] boids[j])
    &&& forall|k: int, m: int|
        0 <= k < m < others.len() ==> (#[trigger] others[k]).entity != (#[trigger] others[m]).entity
    &&& forall|j: int|
        0 <= j < boids.len() && QuadStore::block_members(cells, coord).contains(
            (#[trigger] boids[j]).entity,
        ) ==> exists|k: int| 0 <= k < others.len() && (#[trigger] others[k]).entity == boids[j].entity
}

/// `stuff` is what the boid `i` of `boids` gathers from the boids in the
/// block around its cell, named in some order.
pub open spec fn gathered_from_the_block(
    cells: Map<(i32, i32), Set<u64>>,
    boids: Seq<FlockMember>,
    i: int,
    stuff: BoidStuff,
) -> bool {
    exists|others: Seq<Neighbor>|
        #[trigger] names_the_block(cells, boids[i].quad_coord, boids, others) && stuff == gathered(
            boids[i].boid_stuff,
            boids[i].entity,
            boids[i].position,
            others,
        )
}

/// Lets every boid of `boids` gather from the boids that the grid holds in
/// the block of three by three cells around its own cell (see [`gather`]).
/// All boids gather from what the others showed before any of them has
/// gathered; handles that the grid holds but `boids` does not are passed
/// over. Only what the boids have gathered changes.
pub fn quad_boid_flocking(store: &QuadStore, boids: &mut Vec<FlockMember>)
    ensures
        final(boids)@.len() == old(boids)@.len(),
        forall|i: int|
            0 <= i < old(boids)@.len() ==> {
                &&& (#[trigger] final(boids)@[i]).entity == old(boids)@[i].entity
                &&& final(boids)@[i].position == old(boids)@[i].position
                &&& final(boids)@[i].quad_coord == old(boids)@[i].quad_coord
                &&& final(boids)@[i].direction == old(boids)@[i].direction
                &&& gathered_from_the_block(
                    store@,
                    old(boids)@,
                    i,
                    final(boids)@[i].boid_stuff,
                )
            },
{
    broadcast use group_hash_axioms;

    let n = boids.len();
    let mut faces: Vec<Neighbor> = Vec::new();
    let mut index: HashMap<u64, usize> = HashMap::new();
    let mut j: usize = 0;
    while j < n
        invariant
            0 <= j <= n,
            n == boids@.len(),
            boids@ == old(boids)@,
            faces@.len() == j,
            forall|m: int| 0 <= m < j ==> #[trigger] faces@[m] == shown(boids@[m]),
            forall|id: u64| #[trigger]
                index@.contains_key(id) ==> index@[id] < j && boids@[index@[id] as int].entity == id,
            forall|m: int| 0 <= m < j ==> index@.contains_key((#[trigger] boids@[m]).entity),
        decreases n - j,
    {
        let member = boids[j];
        faces.push(Neighbor {
            entity: member.entity,
            position: member.position,
            direction: member.direction,
        });
        let _ = index.insert(member.entity, j);
        j += 1;
    }
    let mut i: usize = 0;
    while i < n
        invariant
            0 <= i <= n,
            n == boids@.len(),
            n == old(boids)@.len(),
            faces@.len() == n,
            forall|m: int| 0 <= m < n ==> #[trigger] faces@[m] == shown(old(boids)@[m]),
            forall|id: u64| #[trigger]
                index@.contains_key(id) ==> index@[id] < n && old(boids)@[index@[id] as int].entity
                    == id,
            forall|m: int| 0 <= m < n ==> index@.contains_key((#[trigger] old(boids)@[m]).entity),
            forall|m: int|
                0 <= m < n ==> {
                    &&& (#[trigger] boids@[m]).entity == old(boids)@[m].entity
                    &&& boids@[m].position == old(boids)@[m].position
                    &&& boids@[m].quad_coord == old(boids)@[m].quad_coord
                    &&& boids@[m].direction == old(boids)@[m].direction
                    &&& m >= i ==> boids@[m].boid_stuff == old(boids)@[m].boid_stuff
                    &&& m < i ==> gathered_from_the_block(
                        store@,
                        old(boids)@,
                        m,
                        boids@[m].boid_stuff,
                    )
                },
        decreases n - i,
    {
        let me = boids[i];
        let near = store.neighbors(me.quad_coord);
        let others = faces_of(&near, &index, &faces, Ghost(store@), Ghost(me.quad_coord), Ghost(
            old(boids)@,
        ));
        let mut stuff = me.boid_stuff;
        gather(&mut stuff, me.entity, me.position, &others);
        boids[i] = FlockMember {
            entity: me.entity,
            position: me.position,
            quad_coord: me.quad_coord,
            direction: me.direction,
            boid_stuff: stuff,
        };
        proof {
            assert forall|m: int| 0 <= m < n implies {
                &&& (#[trigger] boids@[m]).entity == old(boids)@[m].entity
                &&& boids@[m].position == old(boids)@[m].position
                &&& boids@[m].quad_coord == old(boids)@[m].quad_coord
                &&& boids@[m].direction == old(boids)@[m].direction
                &&& m >= i + 1 ==> boids@[m].boid_stuff == old(boids)@[m].boid_stuff
                &&& m < i + 1 ==> gathered_from_the_block(
                    store@,
                    old(boids)@,
                    m,
                    boids@[m].boid_stuff,
                )
            } by {}
        }
        i += 1;
    }
}

/// What the boids with the handles of `near` show of themselves, in the
/// order of `near`; handles that no boid bears are passed over.
fn faces_of(
    near: &Vec<u64>,
    index: &HashMap<u64, usize>,
    faces: &Vec<Neighbor>,
    Ghost(cells): Ghost<Map<(i32, i32), Set<u64>>>,
    Ghost(coord): Ghost<QuadCoord>,
    Ghost(boids): Ghost<Seq<FlockMember>>,
) -> (others: Vec<Neighbor>)
    requires
        near@.no_duplicates(),
        near@.to_set() == QuadStore::block_members(cells, coord),
        faces@.len() == boids.len(),
        forall|m: int| 0 <= m < boids.len() ==> #[trigger] faces@[m] == shown(boids[m]),
        forall|id: u64| #[trigger]
            index@.contains_key(id) ==> index@[id] < boids.len() && boids[index@[id] as int].entity
                == id,
        forall|m: int| 0 <= m < boids.len() ==> index@.contains_key((#[trigger] boids[m]).entity),
    ensures
        names_the_block(cells, coord, boids, others@),
{
    broadcast use group_hash_axioms;

    let mut others: Vec<Neighbor> = Vec::new();
    let ghost mut from: Seq<int> = Seq::empty();
    let ghost mut who: Seq<int> = Seq::empty();
    let mut k: usize = 0;
    while k < near.len()
        invariant
            0 <= k <= near.len(),
            near@.no_duplicates(),
            near@.to_set() == QuadStore::block_members(cells, coord),
            faces@.len() == boids.len(),
            forall|m: int| 0 <= m < boids.len() ==> #[trigger] faces@[m] == shown(boids[m]),
            forall|id: u64| #[trigger]
                index@.contains_key(id) ==> index@[id] < boids.len() && boids[index@[id] as int].entity
                    == id,
            forall|m: int| 0 <= m < boids.len() ==> index@.contains_key((#[trigger] boids[m]).entity),
            from.len() == others@.len(),
            who.len() == others@.len(),
            forall|m: int|
                #![trigger others@[m]]
                #![trigger from[m]]
                0 <= m < others@.len() ==> {
                    &&& 0 <= from[m] < k
                    &&& others@[m].entity == near@[from[m]]
                    &&& 0 <= who[m] < boids.len()
                    &&& others@[m] == shown(boids[who[m]])
                },
            forall|a: int, b: int| 0 <= a < b < from.len() ==> #[trigger] from[a] < #[trigger] from[b],
            forall|t: int|
                0 <= t < k && index@.contains_key(#[trigger] near@[t]) ==> exists|m: int|
                    0 <= m < others@.len() && (#[trigger] others@[m]).entity == near@[t],
        decreases near.len() - k,
    {
        let id = near[k];
        match index.get(&id) {
            Some(at) => {
                let face = faces[*at];
                let ghost earlier = others@;
                others.push(face);
                proof {
                    from = from.push(k as int);
                    who = who.push(*at as int);
                    let last = others@.len() - 1;
                    assert forall|m: int|
                        #![trigger others@[m]]
                        #![trigger from[m]]
                        0 <= m < others@.len() implies {
                        &&& 0 <= from[m] < k + 1
                        &&& others@[m].entity == near@[from[m]]
                        &&& 0 <= who[m] < boids.len()
                        &&& others@[m] == shown(boids[who[m]])
                    } by {}
                    assert forall|a: int, b: int| 0 <= a < b < from.len() implies #[trigger] from[a]
                        < #[trigger] from[b] by {}
                    assert forall|t: int|
                        0 <= t < k + 1 && index@.contains_key(#[trigger] near@[t]) implies exists|
                        m: int,
                    | 0 <= m < others@.len() && (#[trigger] others@[m]).entity == near@[t] by {
                        if t == k {
                            assert(others@[last].entity == near@[t]);
                        } else {
                            let m = choose|m: int|
                                0 <= m < earlier.len() && (#[trigger] earlier[m]).entity == near@[t];
                            assert(others@[m].entity == near@[t]);
                        }
                    }
                }
            },
            None => {},
        }
        k += 1;
    }
    proof {
        assert forall|m: int| 0 <= m < others@.len() implies QuadStore::block_members(
            cells,
            coord,
        ).contains((#[trigger] others@[m]).entity) && exists|j: int|
            0 <= j < boids.len() && others@[m] == shown(#[trigger] boids[j]) by {}
        assert forall|a: int, b: int| 0 <= a < b < others@.len() implies (
        #[trigger] others@[a]).entity != (#[trigger] others@[b]).entity by {}
        assert forall|j: int|
            0 <= j < boids.len() && QuadStore::block_members(cells, coord).contains(
                (#[trigger] boids[j]).entity,
            ) implies exists|m: int|
            0 <= m < others@.len() && (#[trigger] others@[m]).entity == boids[j].entity by {
            let t = choose|t: int| 0 <= t < near@.len() && near@[t] == boids[j].entity;
            assert(index@.contains_key(near@[t]));
        }
    }
    others
}

} // verus!
