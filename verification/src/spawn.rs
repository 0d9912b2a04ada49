//! When new boids are due, and what a new boid gets by chance.

use crate::components::{BoidBundle, BoidDirection};
use crate::dice::roll;
use crate::flocking::BoidStuff;
use crate::health::Health;
use crate::hunger::Hunger;
use crate::hunting::BoidAttack;
use crate::quad::QuadCoord;
use crate::vector::{Position, Vector2};
use rand_chacha::ChaCha8Rng;
use std::ops::Range;
use vstd::prelude::*;
use vstd::string::StringExecFns;

verus! {

/// How often boids are spawned and counted, how many at a time, and up to
/// what number. Times are in microseconds.
#[derive(PartialEq, Eq, Clone, Copy, Debug, Structural)]
pub struct BoidGenerationSettings {
    pub cool_down: u32,
    pub time_left: i64,
    pub counting_time_left: i64,
    pub boids_to_generate: i32,
    pub max_boids: usize,
    pub min_boids: usize,
    pub generate_boids: bool,
}

impl BoidGenerationSettings {
    /// Settings for a host that spawns `to_generate` boids every `cool_down`
    /// microseconds and counts its boids every ten times as long.
    pub fn new(cool_down: u32, to_generate: i32, min_boids: usize, max_boids: usize) -> (made: Self)
        ensures
            made == (BoidGenerationSettings {
                cool_down,
                time_left: cool_down as i64,
                counting_time_left: (cool_down * 10) as i64,
                boids_to_generate: to_generate,
                min_boids,
                max_boids,
                generate_boids: true,
            }),
    {
        Self {
            cool_down,
            time_left: cool_down as i64,
            counting_time_left: cool_down as i64 * 10,
            boids_to_generate: to_generate,
            min_boids,
            max_boids,
            generate_boids: true,
        }
    }

    /// Whether the boids are counted in a tick of `elapsed` microseconds:
    /// the time to the next count has run out.
    pub open spec fn counts(self, elapsed: u64) -> bool {
        self.counting_time_left - elapsed < 0
    }

    /// Whether boids are spawned after that tick, of which `boid_count` is
    /// the number of boids: as before, unless they were counted, and then if
    /// they are fewer than wanted at most.
    pub open spec fn generates(self, elapsed: u64, boid_count: usize) -> bool {
        if self.counts(elapsed) {
            boid_count < self.max_boids
        } else {
            self.generate_boids
        }
    }

    /// Whether boids are due in that tick: boids are spawned, and the time to
    /// the next spawning has run out.
    pub open spec fn spawns(self, elapsed: u64, boid_count: usize) -> bool {
        self.generates(elapsed, boid_count) && self.time_left - elapsed < 0
    }

    /// The settings after that tick. A time that has run out starts anew;
    /// the time to the next spawning stands still while no boids are spawned.
    pub open spec fn ticked(self, elapsed: u64, boid_count: usize) -> BoidGenerationSettings {
        BoidGenerationSettings {
            counting_time_left: if self.counts(elapsed) {
                (self.cool_down * 10) as i64
            } else {
                (self.counting_time_left - elapsed) as i64
            },
            generate_boids: self.generates(elapsed, boid_count),
            time_left: if !self.generates(elapsed, boid_count) {
                self.time_left
            } else if self.spawns(elapsed, boid_count) {
                self.cool_down as i64
            } else {
                (self.time_left - elapsed) as i64
            },
            ..self
        }
    }

    /// Lets `elapsed` microseconds go by, with `boid_count` boids about, and
    /// tells how many boids are due.
    pub fn tick(&mut self, elapsed: u64, boid_count: usize) -> (due: i32)
        ensures
            *final(self) == old(self).ticked(elapsed, boid_count),
            due == if old(self).spawns(elapsed, boid_count) {
                old(self).boids_to_generate
            } else {
                0
            },
    {
        let counting: i128 = self.counting_time_left as i128 - elapsed as i128;
        if counting < 0 {
            self.counting_time_left = self.cool_down as i64 * 10;
            self.generate_boids = boid_count < self.max_boids;
        } else {
            self.counting_time_left = counting as i64;
        }
        let mut due: i32 = 0;
        if self.generate_boids {
            let left: i128 = self.time_left as i128 - elapsed as i128;
            if left < 0 {
                self.time_left = self.cool_down as i64;
                due = self.boids_to_generate;
            } else {
                self.time_left = left as i64;
            }
        }
        due
    }
}

/// Where new boids are put: `x` and `y` each run from `start` up to, but
/// not including, `end`.
#[derive(PartialEq, Eq, Debug)]
pub struct SpawnArea {
    pub x: Range<i32>,
    pub y: Range<i32>,
}

impl SpawnArea {
    /// Each of the two ranges holds a number.
    pub open spec fn wf(&self) -> bool {
        self.x.start < self.x.end && self.y.start < self.y.end
    }
}

impl Default for SpawnArea {
    fn default() -> (area: Self)
        ensures
            area.wf(),
            area.x == (Range { start: -200i32, end: 200i32 }),
            area.y == (Range { start: -100i32, end: 100i32 }),
    {
        SpawnArea { x: Range { start: -200, end: 200 }, y: Range { start: -100, end: 100 } }
    }
}

/// A new boid and its hunger.
pub struct Hatchling {
    pub bundle: BoidBundle,
    pub hunger: Hunger,
}

/// What holds of every boid that [`spawn_boids`] makes in `area`, whatever
/// the dice give.
pub open spec fn hatched(hatchling: Hatchling, area: SpawnArea) -> bool {
    let bundle = hatchling.bundle;
    &&& area.x.start <= bundle.position.x < area.x.end
    &&& area.y.start <= bundle.position.y < area.y.end
    &&& -1000 <= bundle.direction_control.direction.x < 1000
    &&& -1000 <= bundle.direction_control.direction.y < 1000
    &&& bundle.direction_control.direction != Vector2::zero()
    &&& bundle.direction_control.up == (Vector2 { x: 0, y: 1 })
    &&& bundle.direction_control.force_scale == 5
    &&& bundle.health.health == 100
    &&& bundle.health.max == 100
    &&& bundle.quad_coord == QuadCoord::unassigned()
    &&& bundle.boid_attack.max_damage.start == 5
    &&& 10 <= bundle.boid_attack.max_damage.end <= 20
    &&& bundle.boid_attack.cool_down == 0
    &&& 1_000_000 <= bundle.boid_attack.cool_down_default <= 3_000_000
    &&& 15 <= bundle.boid_attack.skill_level <= 75
    &&& bundle.boid_stuff == (BoidStuff {
        cohesion_boids: 0,
        separation_boids: 0,
        alignment_boids: 0,
        flock_center: Position { x: 0, y: 0 },
        separation_vector: Vector2::zero(),
        alignment_direction: Vector2::zero(),
        desired_direction: Vector2::zero(),
        separation_distance: 25,
        cohesion_distance: 100,
        alignment_distance: 75,
    })
    &&& hatchling.hunger.hunger == 75_000_000
    &&& 10_000 <= hatchling.hunger.per_second < 1_000_000
    &&& hatchling.hunger.per_second % 10_000 == 0
}

/// The character for one decimal digit.
pub open spec fn digit(d: int) -> char {
    if d == 0 {
        '0'
    } else if d == 1 {
        '1'
    } else if d == 2 {
        '2'
    } else if d == 3 {
        '3'
    } else if d == 4 {
        '4'
    } else if d == 5 {
        '5'
    } else if d == 6 {
        '6'
    } else if d == 7 {
        '7'
    } else if d == 8 {
        '8'
    } else {
        '9'
    }
}

/// `n` written in decimal digits.
pub open spec fn decimal(n: nat) -> Seq<char>
    decreases n,
{
    if n < 10 {
        seq![digit(n as int)]
    } else {
        decimal(n / 10).push(digit((n % 10) as int))
    }
}

/// The name of the boid with the number `n`: the word "Boid", a blank, and
/// the number in decimal digits.
pub open spec fn name_of(n: nat) -> Seq<char> {
    "Boid "@ + decimal(n)
}

/// One decimal digit as text.
fn digit_text(d: u32) -> (text: &'static str)
    requires
        d < 10,
    ensures
        text@ == seq![digit(d as int)],
{
    proof {
        reveal_strlit("0");
        reveal_strlit("1");
        reveal_strlit("2");
        reveal_strlit("3");
        reveal_strlit("4");
        reveal_strlit("5");
        reveal_strlit("6");
        reveal_strlit("7");
        reveal_strlit("8");
        reveal_strlit("9");
    }
    let text = if d == 0 {
        "0"
    } else if d == 1 {
        "1"
    } else if d == 2 {
        "2"
    } else if d == 3 {
        "3"
    } else if d == 4 {
        "4"
    } else if d == 5 {
        "5"
    } else if d == 6 {
        "6"
    } else if d == 7 {
        "7"
    } else if d == 8 {
        "8"
    } else {
        "9"
    };
    text
}

/// Writes `n` in decimal digits at the end of `text`.
fn write_decimal(text: &mut String, n: u32)
    ensures
        final(text)@ == old(text)@ + decimal(n as nat),
    decreases n,
{
    if n >= 10 {
        write_decimal(text, n / 10);
    }
    text.append(digit_text(n % 10));
}

/// The name of the boid with the number `n`.
pub fn boid_name(n: u32) -> (name: String)
    ensures
        name@ == name_of(n as nat),
{
    let mut name = String::from_str("Boid ");
    write_decimal(&mut name, n);
    name
}

/// The heading of a new boid whose dice for the heading gave `x` and `y`:
/// that vector, or straight up where both are nothing.
pub open spec fn heading_of(x: i32, y: i32) -> Vector2 {
    if x == 0 && y == 0 {
        Vector2 { x: 0, y: 1 }
    } else {
        Vector2 { x: x as i64, y: y as i64 }
    }
}

/// The new boid with the number `n` that the given throws of the dice make:
/// it stands at `x`, `y` and heads where `heading_x` and `heading_y` point;
/// it gets a hundredth of a point hungrier per second for each unit of
/// `rate`, from a hunger of 75 points; a hit of it deals from 5 up to, but
/// not including, `hardest`; between two attacks it waits
/// `cool_down_default` microseconds; and it hits with the chance
/// `skill_level`. All else is the same for every new boid.
pub fn hatchling_of(
    n: u32,
    x: i32,
    y: i32,
    rate: i32,
    heading_x: i32,
    heading_y: i32,
    hardest: i32,
    cool_down_default: i32,
    skill_level: i32,
) -> (hatchling: Hatchling)
    requires
        0 <= rate,
    ensures
        hatchling.bundle.name@ == name_of(n as nat),
        hatchling.bundle.position == (Position { x, y }),
        hatchling.bundle.direction_control == (BoidDirection {
            direction: heading_of(heading_x, heading_y),
            up: Vector2 { x: 0, y: 1 },
            force_scale: 5,
        }),
        hatchling.bundle.health == (Health { health: 100, max: 100 }),
        hatchling.bundle.quad_coord == QuadCoord::unassigned(),
        hatchling.bundle.boid_attack == (BoidAttack {
            max_damage: Range { start: 5i32, end: hardest },
            cool_down: 0,
            cool_down_default: cool_down_default as i64,
            skill_level,
        }),
        hatchling.bundle.boid_stuff == (BoidStuff {
            cohesion_boids: 0,
            separation_boids: 0,
            alignment_boids: 0,
            flock_center: Position { x: 0, y: 0 },
            separation_vector: Vector2::zero(),
            alignment_direction: Vector2::zero(),
            desired_direction: Vector2::zero(),
            separation_distance: 25,
            cohesion_distance: 100,
            alignment_distance: 75,
        }),
        hatchling.hunger == (Hunger { per_second: (rate * 10_000) as u64, hunger: 75_000_000 }),
{
    let direction = if heading_x == 0 && heading_y == 0 {
        Vector2 { x: 0, y: 1 }
    } else {
        Vector2 { x: heading_x as i64, y: heading_y as i64 }
    };
    let bundle = BoidBundle::new(
        boid_name(n),
        Position { x, y },
        direction,
        Range { start: 5, end: hardest },
        cool_down_default as i64,
        skill_level,
        BoidStuff::default(),
    );
    Hatchling { bundle, hunger: Hunger::new(75_000_000, rate as u64 * 10_000) }
}

/// One new boid, numbered `n`, with what the dice give it: eight throws, for
/// the place along x and along y, the rate of hunger, the heading along x
/// and along y, the end of the range of damage (from 10 to 20), the wait
/// between attacks (from one second to three) and the skill (from 15 to 75).
fn hatch(rng: &mut ChaCha8Rng, n: u32, area: &SpawnArea) -> (hatchling: Hatchling)
    requires
        area.wf(),
    ensures
        hatched(hatchling, *area),
        hatchling.bundle.name@ == name_of(n as nat),
{
    let x = roll(rng, area.x.start, area.x.end);
    let y = roll(rng, area.y.start, area.y.end);
    let rate = roll(rng, 1, 100);
    let heading_x = roll(rng, -1000, 1000);
    let heading_y = roll(rng, -1000, 1000);
    let hardest = roll(rng, 10, 21);
    let cool_down_default = roll(rng, 1_000_000, 3_000_001);
    let skill_level = roll(rng, 15, 76);
    hatchling_of(n, x, y, rate, heading_x, heading_y, hardest, cool_down_default, skill_level)
}

/// Makes `count` new boids, none for a count below one. Each gets by chance
/// a position in `area`, a heading, an attack and a rate of hunger, within
/// the bounds that [`hatched`] states.
pub fn spawn_boids(rng: &mut ChaCha8Rng, count: i32, area: &SpawnArea) -> (hatchlings: Vec<
    Hatchling,
>)
    requires
        area.wf(),
    ensures
        hatchlings@.len() == if count > 0 {
            count as int
        } else {
            0
        },
        forall|i: int|
            0 <= i < hatchlings@.len() ==> hatched(#[trigger] hatchlings@[i], *area)
                && hatchlings@[i].bundle.name@ == name_of(i as nat),
{
    let mut hatchlings: Vec<Hatchling> = Vec::new();
    let mut n: i32 = 0;
    while n < count
        invariant
            area.wf(),
            0 <= n,
            n <= count || n == 0,
            hatchlings@.len() == n,
            forall|i: int|
            0 <= i < hatchlings@.len() ==> hatched(#[trigger] hatchlings@[i], *area)
                && hatchlings@[i].bundle.name@ == name_of(i as nat),
        decreases count - n,
    {
        let hatchling = hatch(rng, n as u32, area);
        hatchlings.push(hatchling);
        n += 1;
    }
    hatchlings
}

/// Lets `elapsed` microseconds go by, with `boid_count` boids about, and
/// makes the boids that are due (see [`BoidGenerationSettings::tick`]).
pub fn spawn_more_boids(
    boid_settings: &mut BoidGenerationSettings,
    elapsed: u64,
    boid_count: usize,
    rng: &mut ChaCha8Rng,
    area: &SpawnArea,
) -> (hatchlings: Vec<Hatchling>)
    requires
        area.wf(),
    ensures
        *final(boid_settings) == old(boid_settings).ticked(elapsed, boid_count),
        hatchlings@.len() == if old(boid_settings).spawns(elapsed, boid_count) && old(
            boid_settings,
        ).boids_to_generate > 0 {
            old(boid_settings).boids_to_generate as int
        } else {
            0
        },
        forall|i: int|
            0 <= i < hatchlings@.len() ==> hatched(#[trigger] hatchlings@[i], *area)
                && hatchlings@[i].bundle.name@ == name_of(i as nat),
{
    let due = boid_settings.tick(elapsed, boid_count);
    spawn_boids(rng, due, area)
}

} // verus!
