use boid_flock::flocking::{gather, quad_boid_flocking, BoidStuff, FlockMember, Neighbor};
use boid_flock::quad::QuadCoord;
use boid_flock::quad_store::QuadStore;
use boid_flock::quads::{naive_quad_system, GridAgent};
use boid_flock::steering::{steering_pulls, SteeringPulls};
use boid_flock::vector::{Position, Vector2};

fn other(entity: u64, x: i32, y: i32, hx: i64, hy: i64) -> Neighbor {
    Neighbor { entity, position: Position::new(x, y), direction: Vector2::new(hx, hy) }
}

fn stuff(cohesion: u64, separation: u64, alignment: u64) -> BoidStuff {
    BoidStuff {
        cohesion_distance: cohesion,
        separation_distance: separation,
        alignment_distance: alignment,
        ..BoidStuff::default()
    }
}

#[test]
fn default_stuff_has_gathered_nothing() {
    let s = BoidStuff::default();
    assert_eq!(s.cohesion_boids, 0);
    assert_eq!(s.separation_boids, 0);
    assert_eq!(s.alignment_boids, 0);
    assert_eq!(s.flock_center, Position::new(0, 0));
    assert_eq!(s.separation_vector, Vector2::new(0, 0));
    assert_eq!(s.alignment_direction, Vector2::new(0, 0));
    assert_eq!(s.desired_direction, Vector2::new(0, 0));
    assert_eq!(s.separation_distance, 25);
    assert_eq!(s.cohesion_distance, 100);
    assert_eq!(s.alignment_distance, 75);
}

fn indexed(places: &[(u64, i32, i32)], size: u32) -> (QuadStore, Vec<FlockMember>) {
    let mut store = QuadStore::new(size, 1, 1000, 0, 20).unwrap();
    let mut agents: Vec<GridAgent> = places
        .iter()
        .map(|&(entity, x, y)| GridAgent {
            entity,
            position: Position::new(x, y),
            coord: QuadCoord::default(),
        })
        .collect();
    assert!(!naive_quad_system(&mut store, &mut agents));
    let boids = agents
        .iter()
        .map(|a| FlockMember {
            entity: a.entity,
            position: a.position,
            quad_coord: a.coord,
            direction: Vector2::new(a.entity as i64, 1),
            boid_stuff: stuff(5, 2, 5),
        })
        .collect();
    (store, boids)
}

#[test]
fn three_agents_of_which_one_is_far() {
    let (store, mut boids) = indexed(&[(1, 0, 0), (2, 1, 0), (3, 10, 10)], 25);
    // all three stand in one cell, and so each is handed the other two
    assert_eq!(store.neighbors(boids[2].quad_coord).len(), 3);
    let before = boids.clone();
    quad_boid_flocking(&store, &mut boids);
    assert_eq!(boids[0].boid_stuff.cohesion_boids, 1);
    assert_eq!(boids[0].boid_stuff.flock_center, Position::new(1, 0));
    assert_eq!(boids[0].boid_stuff.alignment_direction, Vector2::new(2, 1));
    assert_eq!(boids[1].boid_stuff.cohesion_boids, 1);
    assert_eq!(boids[1].boid_stuff.flock_center, Position::new(0, 0));
    assert_eq!(boids[1].boid_stuff.alignment_direction, Vector2::new(1, 1));
    assert_eq!(boids[2].boid_stuff, stuff(5, 2, 5));
    assert_eq!(boids[2].boid_stuff.cohesion_boids, 0);
    assert_eq!(boids[2].boid_stuff.flock_center, Position::new(0, 0));
    for (now, then) in boids.iter().zip(&before) {
        assert_eq!(now.entity, then.entity);
        assert_eq!(now.position, then.position);
        assert_eq!(now.quad_coord, then.quad_coord);
        assert_eq!(now.direction, then.direction);
    }
}

#[test]
fn boids_gather_only_from_the_block_around_them() {
    // cells of side 10: the boid at 35 is near in reach, but two cells off
    let (store, mut boids) = indexed(&[(1, 5, 5), (2, 15, 5), (3, 35, 5)], 10);
    for b in boids.iter_mut() {
        b.boid_stuff = stuff(100, 100, 100);
    }
    quad_boid_flocking(&store, &mut boids);
    assert_eq!(boids[0].boid_stuff.cohesion_boids, 1);
    assert_eq!(boids[0].boid_stuff.flock_center, Position::new(15, 5));
    assert_eq!(boids[1].boid_stuff.cohesion_boids, 1);
    assert_eq!(boids[1].boid_stuff.flock_center, Position::new(5, 5));
    assert_eq!(boids[2].boid_stuff.cohesion_boids, 0);
}

#[test]
fn boids_pass_over_handles_that_no_boid_bears() {
    let (mut store, mut boids) = indexed(&[(1, 0, 0), (2, 1, 0)], 25);
    store.insert(99, QuadCoord::new(0, 0));
    quad_boid_flocking(&store, &mut boids);
    assert_eq!(boids[0].boid_stuff.cohesion_boids, 1);
    assert_eq!(boids[1].boid_stuff.cohesion_boids, 1);
}

#[test]
fn boids_gather_from_what_the_others_showed_before() {
    // what one boid has gathered does not reach what the next one gathers
    let (store, mut boids) = indexed(&[(1, 0, 0), (2, 3, 0), (3, 0, 4)], 25);
    let mut alone = Vec::new();
    for me in &boids {
        let others: Vec<Neighbor> = boids
            .iter()
            .map(|b| Neighbor { entity: b.entity, position: b.position, direction: b.direction })
            .collect();
        let mut s = me.boid_stuff;
        gather(&mut s, me.entity, me.position, &others);
        alone.push(s);
    }
    quad_boid_flocking(&store, &mut boids);
    for (b, s) in boids.iter().zip(&alone) {
        assert_eq!(&b.boid_stuff, s);
    }
    // a second round changes nothing
    let once = boids.clone();
    quad_boid_flocking(&store, &mut boids);
    assert_eq!(boids, once);
}

#[test]
fn no_boids_gather_nothing() {
    let store = QuadStore::new(25, 1, 1000, 0, 20).unwrap();
    let mut boids: Vec<FlockMember> = Vec::new();
    quad_boid_flocking(&store, &mut boids);
    assert!(boids.is_empty());
}

#[test]
fn reach_is_compared_squared_and_strictly() {
    let others = vec![other(2, 3, 4, 0, 0), other(3, 5, 0, 0, 0), other(4, 0, -4, 0, 0)];
    let mut s = stuff(5, 0, 0);
    gather(&mut s, 1, Position::new(0, 0), &others);
    // 3,4 and 5,0 are exactly 5 away: out of a reach of 5
    assert_eq!(s.cohesion_boids, 1);
    assert_eq!(s.flock_center, Position::new(0, -4));
    let mut s = stuff(6, 0, 0);
    gather(&mut s, 1, Position::new(0, 0), &others);
    assert_eq!(s.cohesion_boids, 3);
    // (3 + 5 + 0) / 3 and (4 + 0 - 4) / 3
    assert_eq!(s.flock_center, Position::new(2, 0));
}

#[test]
fn the_boid_itself_never_counts() {
    let others = vec![other(1, 0, 0, 9, 9), other(2, 2, 0, 1, 0)];
    let mut s = stuff(10, 10, 10);
    gather(&mut s, 1, Position::new(0, 0), &others);
    assert_eq!(s.cohesion_boids, 1);
    assert_eq!(s.separation_boids, 1);
    assert_eq!(s.alignment_boids, 1);
    assert_eq!(s.flock_center, Position::new(2, 0));
    assert_eq!(s.separation_vector, Vector2::new(-2, 0));
    assert_eq!(s.alignment_direction, Vector2::new(1, 0));
}

#[test]
fn separation_reaches_only_where_cohesion_does() {
    let others = vec![other(2, 3, 0, 0, 0)];
    // separation alone would reach, cohesion does not
    let mut s = stuff(2, 10, 0);
    gather(&mut s, 1, Position::new(0, 0), &others);
    assert_eq!(s.cohesion_boids, 0);
    assert_eq!(s.separation_boids, 0);
    assert_eq!(s.separation_vector, Vector2::new(0, 0));
    let mut s = stuff(10, 10, 0);
    gather(&mut s, 1, Position::new(0, 0), &others);
    assert_eq!(s.separation_boids, 1);
    assert_eq!(s.separation_vector, Vector2::new(-3, 0));
}

#[test]
fn alignment_does_not_depend_on_cohesion() {
    let others = vec![other(2, 3, 0, 10, -20), other(3, 0, 3, 20, -21)];
    let mut s = stuff(0, 0, 4);
    gather(&mut s, 1, Position::new(0, 0), &others);
    assert_eq!(s.cohesion_boids, 0);
    assert_eq!(s.alignment_boids, 2);
    // (10 + 20) / 2 and (-20 - 21) / 2 toward zero
    assert_eq!(s.alignment_direction, Vector2::new(15, -20));
}

#[test]
fn means_are_rounded_toward_zero() {
    let others = vec![other(2, -1, 1, -3, 3), other(3, -2, 2, -4, 4), other(4, -2, 2, -4, 4)];
    let mut s = stuff(10, 10, 10);
    gather(&mut s, 1, Position::new(0, 0), &others);
    // -5 / 3 and 5 / 3
    assert_eq!(s.flock_center, Position::new(-1, 1));
    assert_eq!(s.separation_vector, Vector2::new(1, -1));
    // -11 / 3 and 11 / 3
    assert_eq!(s.alignment_direction, Vector2::new(-3, 3));
}

#[test]
fn gathering_drops_what_was_gathered_before() {
    let mut s = stuff(10, 10, 10);
    s.desired_direction = Vector2::new(4, 5);
    gather(&mut s, 1, Position::new(0, 0), &vec![other(2, 1, 1, 1, 1)]);
    assert_eq!(s.cohesion_boids, 1);
    gather(&mut s, 1, Position::new(0, 0), &Vec::new());
    assert_eq!(s.cohesion_boids, 0);
    assert_eq!(s.separation_boids, 0);
    assert_eq!(s.alignment_boids, 0);
    assert_eq!(s.flock_center, Position::new(0, 0));
    assert_eq!(s.separation_vector, Vector2::new(0, 0));
    assert_eq!(s.alignment_direction, Vector2::new(0, 0));
    assert_eq!(s.desired_direction, Vector2::new(4, 5));
    assert_eq!(s.cohesion_distance, 10);
    assert_eq!(s.separation_distance, 10);
    assert_eq!(s.alignment_distance, 10);
}

#[test]
fn gathering_at_the_ends_of_the_world() {
    let others = vec![
        other(2, i32::MAX, i32::MAX, i64::MAX, i64::MIN),
        other(3, i32::MAX, i32::MAX, i64::MAX, i64::MIN),
        other(4, i32::MAX, i32::MAX, i64::MAX, i64::MIN),
    ];
    let mut s = stuff(u64::MAX, u64::MAX, u64::MAX);
    gather(&mut s, 1, Position::new(i32::MIN, i32::MIN), &others);
    assert_eq!(s.cohesion_boids, 3);
    assert_eq!(s.flock_center, Position::new(i32::MAX, i32::MAX));
    assert_eq!(s.separation_vector, Vector2::new(-(u32::MAX as i64), -(u32::MAX as i64)));
    assert_eq!(s.alignment_direction, Vector2::new(i64::MAX, i64::MIN));
}

#[test]
fn the_order_of_the_others_does_not_matter() {
    let mut others = vec![
        other(2, 3, 1, 5, 0),
        other(3, -4, 2, 0, 7),
        other(4, 1, -6, -3, -3),
        other(5, 9, 9, 1, 1),
    ];
    let mut first = stuff(8, 5, 13);
    gather(&mut first, 1, Position::new(0, 0), &others);
    others.reverse();
    let mut second = stuff(8, 5, 13);
    gather(&mut second, 1, Position::new(0, 0), &others);
    assert_eq!(first, second);
    others.swap(1, 3);
    let mut third = stuff(8, 5, 13);
    gather(&mut third, 1, Position::new(0, 0), &others);
    assert_eq!(first, third);
}

#[test]
fn distance_and_offset_of_positions() {
    let a = Position::new(1, 2);
    let b = Position::new(4, -2);
    assert_eq!(a.delta(&b), Vector2::new(3, -4));
    assert_eq!(a.distance_squared(&b), 25);
    assert_eq!(Vector2::new(3, -4).length_squared(), 25);
    assert_eq!(Vector2::origin(), Vector2::new(0, 0));
    let far = Position::new(i32::MIN, i32::MIN).distance_squared(&Position::new(i32::MAX, i32::MAX));
    assert_eq!(far, 2 * (u32::MAX as u128) * (u32::MAX as u128));
    assert_eq!(
        Vector2::new(i64::MIN, i64::MIN).length_squared(),
        2 * (1u128 << 63) * (1u128 << 63)
    );
}

#[test]
fn pulls_of_a_boid_in_a_flock() {
    let mut s = stuff(10, 10, 10);
    s.desired_direction = Vector2::new(0, -1);
    gather(
        &mut s,
        1,
        Position::new(2, 2),
        &vec![other(2, 4, 2, 0, 3), other(3, 6, 2, 0, 5)],
    );
    let pulls = steering_pulls(&s, Position::new(2, 2));
    assert_eq!(
        pulls,
        SteeringPulls {
            cohesion: Vector2::new(3, 0),
            separation: Vector2::new(-3, 0),
            alignment: Vector2::new(0, 4),
            desired: Vector2::new(0, -1),
        }
    );
}

#[test]
fn pulls_of_a_boid_on_its_own() {
    let mut s = stuff(10, 10, 10);
    s.desired_direction = Vector2::new(7, 7);
    // left over from an earlier tick; without a count they pull nothing
    s.flock_center = Position::new(50, 50);
    s.separation_vector = Vector2::new(1, 1);
    s.alignment_direction = Vector2::new(2, 2);
    let pulls = steering_pulls(&s, Position::new(2, 2));
    assert_eq!(
        pulls,
        SteeringPulls {
            cohesion: Vector2::new(0, 0),
            separation: Vector2::new(0, 0),
            alignment: Vector2::new(0, 0),
            desired: Vector2::new(7, 7),
        }
    );
}
