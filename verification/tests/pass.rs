use boid_flock::quad::{QuadCoord, Rebuild};
use boid_flock::quad_store::QuadStore;
use boid_flock::quads::{naive_quad_system, GridAgent};
use boid_flock::vector::Position;

fn agent(entity: u64, x: i32, y: i32) -> GridAgent {
    GridAgent { entity, position: Position::new(x, y), coord: QuadCoord::default() }
}

fn sorted(mut handles: Vec<u64>) -> Vec<u64> {
    handles.sort();
    handles
}

#[test]
fn pass_files_every_agent_under_its_cell() {
    let mut s = QuadStore::new(25, 5, 100, 1, 20).unwrap();
    let mut agents = vec![agent(1, 0, 0), agent(2, 1, 0), agent(3, 260, 260), agent(4, -1, -1)];
    assert!(!naive_quad_system(&mut s, &mut agents));
    assert_eq!(agents[0].coord, QuadCoord::new(0, 0));
    assert_eq!(agents[1].coord, QuadCoord::new(0, 0));
    assert_eq!(agents[2].coord, QuadCoord::new(10, 10));
    assert_eq!(agents[3].coord, QuadCoord::new(-1, -1));
    assert_eq!(sorted(s.members(QuadCoord::new(0, 0))), vec![1, 2]);
    assert_eq!(s.members(QuadCoord::new(10, 10)), vec![3]);
    assert_eq!(s.members(QuadCoord::new(-1, -1)), vec![4]);
    assert_eq!(s.cell_count(), 3);
    assert_eq!(s.largest_count, 2);
    assert_eq!(s.quad_size, 25);
    for a in &agents {
        assert_eq!(a.coord, QuadCoord::of(a.position, 25));
        assert!(s.contains(a.entity, a.coord));
    }
}

#[test]
fn pass_keeps_handles_and_positions() {
    let mut s = QuadStore::new(25, 5, 100, 1, 20).unwrap();
    let mut agents = vec![agent(1, 0, 0), agent(2, 77, -3)];
    naive_quad_system(&mut s, &mut agents);
    assert_eq!(agents.len(), 2);
    assert_eq!(agents[0].entity, 1);
    assert_eq!(agents[0].position, Position::new(0, 0));
    assert_eq!(agents[1].entity, 2);
    assert_eq!(agents[1].position, Position::new(77, -3));
}

#[test]
fn pass_follows_agents_that_move() {
    let mut s = QuadStore::new(25, 5, 100, 1, 20).unwrap();
    let mut agents = vec![agent(1, 0, 0), agent(2, 1, 0)];
    naive_quad_system(&mut s, &mut agents);
    agents[1].position = Position::new(30, 0);
    assert!(!naive_quad_system(&mut s, &mut agents));
    assert_eq!(s.members(QuadCoord::new(0, 0)), vec![1]);
    assert_eq!(s.members(QuadCoord::new(1, 0)), vec![2]);
    assert_eq!(agents[1].coord, QuadCoord::new(1, 0));
    // only the agent that moved has been counted in this pass
    assert_eq!(s.largest_count, 1);
    assert_eq!(s.rebuild_store, Rebuild::KeepQuadSize);
}

#[test]
fn pass_leaves_the_verdict_for_the_next_pass() {
    // three in one cell where two are wanted at most
    let mut s = QuadStore::new(25, 5, 100, 1, 2).unwrap();
    let mut agents = vec![agent(1, 0, 0), agent(2, 1, 0), agent(3, 13, 0), agent(4, 20, 20)];
    assert!(!naive_quad_system(&mut s, &mut agents));
    assert_eq!(s.rebuild_store, Rebuild::ShrinkQuadSize);
    assert_eq!(s.quad_size, 25);
    assert_eq!(s.largest_count, 4);
    // the pass itself has filed them all
    assert_eq!(sorted(s.members(QuadCoord::new(0, 0))), vec![1, 2, 3, 4]);
    for a in &agents {
        assert_eq!(a.coord, QuadCoord::new(0, 0));
    }
    // nobody is counted where fewer than one per cell are wanted
    let mut s = QuadStore::new(25, 5, 100, 1, 2).unwrap();
    let mut none: Vec<GridAgent> = Vec::new();
    assert!(!naive_quad_system(&mut s, &mut none));
    assert_eq!(s.rebuild_store, Rebuild::GrowQuadSize);
    // and a count within the thresholds keeps the size
    let mut s = QuadStore::new(25, 5, 100, 1, 2).unwrap();
    let mut two = vec![agent(1, 0, 0), agent(2, 1, 0)];
    assert!(!naive_quad_system(&mut s, &mut two));
    assert_eq!(s.rebuild_store, Rebuild::KeepQuadSize);
}

#[test]
fn pass_that_finds_shrink_halves_the_cells_and_files_all_again() {
    let mut s = QuadStore::new(25, 5, 100, 1, 2).unwrap();
    let mut agents = vec![agent(1, 0, 0), agent(2, 1, 0), agent(3, 13, 0), agent(4, 20, 20)];
    naive_quad_system(&mut s, &mut agents);
    assert_eq!(s.rebuild_store, Rebuild::ShrinkQuadSize);
    assert!(naive_quad_system(&mut s, &mut agents));
    assert_eq!(s.quad_size, 12);
    // every agent is filed in the smaller cells, also those whose cell is the same
    assert_eq!(sorted(s.members(QuadCoord::new(0, 0))), vec![1, 2]);
    assert_eq!(s.members(QuadCoord::new(1, 0)), vec![3]);
    assert_eq!(s.members(QuadCoord::new(1, 1)), vec![4]);
    assert_eq!(s.cell_count(), 3);
    assert_eq!(agents[0].coord, QuadCoord::new(0, 0));
    assert_eq!(agents[3].coord, QuadCoord::new(1, 1));
    for a in &agents {
        assert_eq!(a.coord, QuadCoord::of(a.position, 12));
        assert!(s.contains(a.entity, a.coord));
    }
    // the count of the pass before goes on, and asks to shrink once more
    assert_eq!(s.largest_count, 4);
    assert_eq!(s.rebuild_store, Rebuild::ShrinkQuadSize);
}

#[test]
fn pass_that_finds_shrink_with_nobody_about() {
    let mut s = QuadStore::new(25, 20, 100, 1, 10).unwrap();
    s.insert(1, QuadCoord::new(0, 0));
    s.rebuild_store = Rebuild::ShrinkQuadSize;
    let mut agents: Vec<GridAgent> = Vec::new();
    assert!(naive_quad_system(&mut s, &mut agents));
    assert_eq!(s.quad_size, 20);
    assert_eq!(s.cell_count(), 0);
    assert_eq!(s.largest_count, 1);
    assert_eq!(s.rebuild_store, Rebuild::KeepQuadSize);
}

#[test]
fn pass_that_finds_shrink_files_an_agent_whose_cell_stays() {
    let mut s = QuadStore::new(50, 5, 100, 1, 10).unwrap();
    let mut agents = vec![agent(1, 1, 1)];
    naive_quad_system(&mut s, &mut agents);
    assert_eq!(agents[0].coord, QuadCoord::new(0, 0));
    s.rebuild_store = Rebuild::ShrinkQuadSize;
    assert!(naive_quad_system(&mut s, &mut agents));
    assert_eq!(s.quad_size, 25);
    assert_eq!(agents[0].coord, QuadCoord::new(0, 0));
    assert_eq!(s.members(QuadCoord::new(0, 0)), vec![1]);
    assert_eq!(s.cell_count(), 1);
}

#[test]
fn pass_that_finds_grow_doubles_the_cells_within_their_bounds() {
    let mut s = QuadStore::new(25, 5, 40, 2, 5).unwrap();
    let mut agents = vec![agent(1, 0, 0), agent(2, 30, 0)];
    assert!(!naive_quad_system(&mut s, &mut agents));
    assert_eq!(s.rebuild_store, Rebuild::GrowQuadSize);
    assert_eq!(s.members(QuadCoord::new(1, 0)), vec![2]);
    assert!(naive_quad_system(&mut s, &mut agents));
    assert_eq!(s.quad_size, 40);
    assert_eq!(sorted(s.members(QuadCoord::new(0, 0))), vec![1, 2]);
    assert_eq!(s.cell_count(), 1);
    assert_eq!(s.largest_count, 2);
    assert_eq!(s.rebuild_store, Rebuild::KeepQuadSize);
    // at the largest size a grid that is to grow keeps size and cells
    s.rebuild_store = Rebuild::GrowQuadSize;
    s.largest_count = 7;
    assert!(!naive_quad_system(&mut s, &mut agents));
    assert_eq!(s.quad_size, 40);
    assert_eq!(sorted(s.members(QuadCoord::new(0, 0))), vec![1, 2]);
    // nobody moved, and the count goes on from where it stood
    assert_eq!(s.largest_count, 7);
    assert_eq!(s.rebuild_store, Rebuild::ShrinkQuadSize);
}

#[test]
fn pass_in_which_nobody_moves_leaves_cells_and_coordinates() {
    let mut s = QuadStore::new(25, 5, 100, 1, 20).unwrap();
    let mut agents = vec![agent(1, 0, 0), agent(2, 30, 0), agent(3, 31, 0)];
    naive_quad_system(&mut s, &mut agents);
    let before = agents.clone();
    assert!(!naive_quad_system(&mut s, &mut agents));
    assert_eq!(agents, before);
    assert_eq!(s.members(QuadCoord::new(0, 0)), vec![1]);
    assert_eq!(sorted(s.members(QuadCoord::new(1, 0))), vec![2, 3]);
    assert_eq!(s.cell_count(), 2);
    assert_eq!(s.quad_size, 25);
    // nobody has been counted, which asks for larger cells
    assert_eq!(s.largest_count, 0);
    assert_eq!(s.rebuild_store, Rebuild::GrowQuadSize);
}

#[test]
fn pass_over_no_agents_of_a_grid_that_wants_none() {
    let mut s = QuadStore::new(25, 5, 100, 0, 5).unwrap();
    let mut agents: Vec<GridAgent> = Vec::new();
    assert!(!naive_quad_system(&mut s, &mut agents));
    assert_eq!(s.quad_size, 25);
    assert_eq!(s.largest_count, 0);
    assert_eq!(s.rebuild_store, Rebuild::KeepQuadSize);
}

#[test]
fn after_every_pass_each_agent_is_in_the_cell_of_its_position() {
    let mut s = QuadStore::new(25, 10, 60, 2, 3).unwrap();
    let mut agents: Vec<GridAgent> = (0..12).map(|i| agent(i, (i as i32) * 7, 0)).collect();
    let mut sizes = std::collections::BTreeSet::new();
    for round in 0..30 {
        for a in agents.iter_mut() {
            a.position = Position::new((a.position.x * 3 + round) % 200, a.position.y + 1);
        }
        naive_quad_system(&mut s, &mut agents);
        assert!(10 <= s.quad_size && s.quad_size <= 60);
        sizes.insert(s.quad_size);
        let mut filed = 0;
        for a in &agents {
            assert_eq!(a.coord, QuadCoord::of(a.position, s.quad_size));
            assert!(s.contains(a.entity, a.coord));
            filed += 1;
        }
        let mut held = 0;
        for x in -1..=20 {
            for y in -1..=4 {
                held += s.members(QuadCoord::new(x, y)).len();
            }
        }
        assert_eq!(held, filed);
    }
    assert!(sizes.len() > 1);
}
