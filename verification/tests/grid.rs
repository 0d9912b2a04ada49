use boid_flock::quad::{cell_index, QuadCoord, Rebuild};
use boid_flock::quad_store::{QuadStore, QuadStoreError};
use boid_flock::vector::Position;

fn sorted(mut handles: Vec<u64>) -> Vec<u64> {
    handles.sort();
    handles
}

fn store() -> QuadStore {
    QuadStore::new(25, 5, 100, 1, 20).unwrap()
}

#[test]
fn default_coordinate_is_far_outside_the_world() {
    let c = QuadCoord::default();
    assert_eq!(c.x, -15000);
    assert_eq!(c.y, -15000);
    assert_eq!(c, QuadCoord::new(-15000, -15000));
}

#[test]
fn new_coordinate_keeps_its_parts() {
    let c = QuadCoord::new(3, -4);
    assert_eq!(c.x, 3);
    assert_eq!(c.y, -4);
}

#[test]
fn cell_index_rounds_toward_negative_infinity() {
    assert_eq!(cell_index(0, 25), 0);
    assert_eq!(cell_index(24, 25), 0);
    assert_eq!(cell_index(25, 25), 1);
    assert_eq!(cell_index(-1, 25), -1);
    assert_eq!(cell_index(-25, 25), -1);
    assert_eq!(cell_index(-26, 25), -2);
    assert_eq!(cell_index(i32::MIN, 1), i32::MIN);
    assert_eq!(cell_index(i32::MAX, 1), i32::MAX);
    assert_eq!(cell_index(i32::MIN, u32::MAX), -1);
    assert_eq!(cell_index(i32::MAX, u32::MAX), 0);
}

#[test]
fn cell_of_a_position_is_taken_by_axis() {
    assert_eq!(QuadCoord::of(Position::new(50, -26), 25), QuadCoord::new(2, -2));
    assert_eq!(QuadCoord::of(Position::new(-1, 99), 100), QuadCoord::new(-1, 0));
}

#[test]
fn nearness_is_the_block_of_three_by_three() {
    let c = QuadCoord::new(0, 0);
    for x in -2..=2 {
        for y in -2..=2 {
            let near = x >= -1 && x <= 1 && y >= -1 && y <= 1;
            assert_eq!(c.is_near(&QuadCoord::new(x, y)), near);
        }
    }
    assert!(QuadCoord::new(i32::MAX, i32::MIN).is_near(&QuadCoord::new(i32::MAX - 1, i32::MIN + 1)));
    assert!(!QuadCoord::new(i32::MAX, 0).is_near(&QuadCoord::new(i32::MIN, 0)));
}

#[test]
fn new_store_refuses_a_cell_size_of_zero() {
    assert_eq!(QuadStore::new(25, 0, 100, 1, 20).err(), Some(QuadStoreError::ZeroQuadSize));
    assert_eq!(QuadStore::new(25, 0, 0, 5, 2).err(), Some(QuadStoreError::ZeroQuadSize));
}

#[test]
fn new_store_refuses_cell_sizes_out_of_order() {
    assert_eq!(QuadStore::new(25, 50, 10, 1, 20).err(), Some(QuadStoreError::QuadSizeBounds));
    assert_eq!(QuadStore::new(25, 50, 10, 9, 2).err(), Some(QuadStoreError::QuadSizeBounds));
}

#[test]
fn new_store_refuses_populations_out_of_order() {
    assert_eq!(QuadStore::new(25, 5, 100, 21, 20).err(), Some(QuadStoreError::EntityBounds));
}

#[test]
fn new_store_is_empty_and_settled() {
    let s = store();
    assert_eq!(s.quad_size, 25);
    assert_eq!(s.min_quad_size, 5);
    assert_eq!(s.max_quad_size, 100);
    assert_eq!(s.min_entities, 1);
    assert_eq!(s.max_entities, 20);
    assert_eq!(s.largest_count, 0);
    assert_eq!(s.rebuild_store, Rebuild::KeepQuadSize);
    assert_eq!(s.cell_count(), 0);
}

#[test]
fn new_store_brings_the_cell_size_into_its_bounds() {
    assert_eq!(QuadStore::new(1, 5, 100, 1, 20).unwrap().quad_size, 5);
    assert_eq!(QuadStore::new(1000, 5, 100, 1, 20).unwrap().quad_size, 100);
    assert_eq!(QuadStore::new(7, 7, 7, 3, 3).unwrap().quad_size, 7);
}

#[test]
fn insert_files_an_entity_under_its_cell() {
    let mut s = store();
    s.insert(7, QuadCoord::new(1, 2));
    assert!(s.contains(7, QuadCoord::new(1, 2)));
    assert!(!s.contains(7, QuadCoord::new(2, 1)));
    assert!(!s.contains(8, QuadCoord::new(1, 2)));
    assert_eq!(s.members(QuadCoord::new(1, 2)), vec![7]);
    assert_eq!(s.members(QuadCoord::new(2, 1)), Vec::<u64>::new());
    assert_eq!(s.cell_count(), 1);
    assert_eq!(s.largest_count, 1);
}

#[test]
fn insert_twice_files_once() {
    let mut s = store();
    s.insert(7, QuadCoord::new(1, 2));
    s.insert(7, QuadCoord::new(1, 2));
    assert_eq!(s.members(QuadCoord::new(1, 2)), vec![7]);
    assert_eq!(s.largest_count, 1);
}

#[test]
fn insert_counts_the_largest_population() {
    let mut s = store();
    s.insert(1, QuadCoord::new(0, 0));
    s.insert(2, QuadCoord::new(0, 0));
    s.insert(3, QuadCoord::new(0, 0));
    s.insert(4, QuadCoord::new(5, 5));
    assert_eq!(s.largest_count, 3);
    assert_eq!(sorted(s.members(QuadCoord::new(0, 0))), vec![1, 2, 3]);
    assert_eq!(s.cell_count(), 2);
}

#[test]
fn remove_drops_a_cell_left_empty() {
    let mut s = store();
    s.insert(1, QuadCoord::new(0, 0));
    s.insert(2, QuadCoord::new(0, 0));
    s.remove(1, QuadCoord::new(0, 0));
    assert_eq!(s.members(QuadCoord::new(0, 0)), vec![2]);
    assert_eq!(s.cell_count(), 1);
    s.remove(2, QuadCoord::new(0, 0));
    assert_eq!(s.cell_count(), 0);
    assert!(!s.contains(2, QuadCoord::new(0, 0)));
}

#[test]
fn remove_of_an_absent_entity_changes_nothing() {
    let mut s = store();
    s.insert(1, QuadCoord::new(0, 0));
    s.remove(9, QuadCoord::new(0, 0));
    s.remove(1, QuadCoord::new(3, 3));
    assert_eq!(s.members(QuadCoord::new(0, 0)), vec![1]);
    assert_eq!(s.cell_count(), 1);
}

#[test]
fn insert_then_remove_restores_the_grid() {
    let mut s = store();
    s.insert(1, QuadCoord::new(0, 0));
    s.insert(2, QuadCoord::new(4, 4));
    // into a cell that exists
    s.insert(3, QuadCoord::new(0, 0));
    s.remove(3, QuadCoord::new(0, 0));
    assert_eq!(s.members(QuadCoord::new(0, 0)), vec![1]);
    assert_eq!(s.members(QuadCoord::new(4, 4)), vec![2]);
    assert_eq!(s.cell_count(), 2);
    // into a cell that does not
    s.insert(3, QuadCoord::new(9, 9));
    assert_eq!(s.cell_count(), 3);
    s.remove(3, QuadCoord::new(9, 9));
    assert_eq!(s.members(QuadCoord::new(0, 0)), vec![1]);
    assert_eq!(s.members(QuadCoord::new(4, 4)), vec![2]);
    assert_eq!(s.members(QuadCoord::new(9, 9)), Vec::<u64>::new());
    assert_eq!(s.cell_count(), 2);
}

#[test]
fn reindex_files_a_new_entity() {
    let mut s = store();
    let mut coord = QuadCoord::default();
    s.reindex(7, Position::new(30, -30), &mut coord);
    assert_eq!(coord, QuadCoord::new(1, -2));
    assert_eq!(s.members(QuadCoord::new(1, -2)), vec![7]);
    assert_eq!(s.cell_count(), 1);
    assert_eq!(s.largest_count, 1);
}

#[test]
fn reindex_moves_an_entity_between_cells() {
    let mut s = store();
    let mut coord = QuadCoord::default();
    s.reindex(7, Position::new(30, 30), &mut coord);
    s.reindex(7, Position::new(60, 30), &mut coord);
    assert_eq!(coord, QuadCoord::new(2, 1));
    assert!(!s.contains(7, QuadCoord::new(1, 1)));
    assert!(s.contains(7, QuadCoord::new(2, 1)));
    assert_eq!(s.cell_count(), 1);
}

#[test]
fn reindex_within_a_cell_changes_nothing() {
    let mut s = store();
    let mut coord = QuadCoord::default();
    s.reindex(7, Position::new(30, 30), &mut coord);
    s.largest_count = 0;
    s.reindex(7, Position::new(31, 49), &mut coord);
    assert_eq!(coord, QuadCoord::new(1, 1));
    assert_eq!(s.members(QuadCoord::new(1, 1)), vec![7]);
    assert_eq!(s.largest_count, 0);
}

#[test]
fn reindex_files_an_entity_that_stands_in_the_unassigned_cell() {
    let mut s = QuadStore::new(1, 1, 100, 1, 20).unwrap();
    let mut coord = QuadCoord::default();
    s.reindex(7, Position::new(-15000, -15000), &mut coord);
    assert_eq!(coord, QuadCoord::default());
    assert_eq!(s.members(QuadCoord::default()), vec![7]);
    s.reindex(7, Position::new(-15000, -15000), &mut coord);
    assert_eq!(s.members(QuadCoord::default()), vec![7]);
    s.reindex(7, Position::new(0, 0), &mut coord);
    assert_eq!(coord, QuadCoord::new(0, 0));
    assert!(!s.contains(7, QuadCoord::default()));
    assert_eq!(s.members(QuadCoord::new(0, 0)), vec![7]);
    assert_eq!(s.cell_count(), 1);
}

#[test]
fn after_reindex_exactly_one_cell_holds_the_entity() {
    let mut s = store();
    let mut coord = QuadCoord::default();
    let path = [(0, 0), (26, 0), (26, 26), (-1, -1), (-1, -1), (99, -51), (0, 0)];
    for (x, y) in path {
        s.reindex(7, Position::new(x, y), &mut coord);
        assert_eq!(coord, QuadCoord::new(x.div_euclid(25), y.div_euclid(25)));
        let mut holding = 0;
        for cx in -4..=4 {
            for cy in -4..=4 {
                if s.contains(7, QuadCoord::new(cx, cy)) {
                    assert_eq!(QuadCoord::new(cx, cy), coord);
                    holding += 1;
                }
            }
        }
        assert_eq!(holding, 1);
        assert_eq!(s.cell_count(), 1);
    }
}

#[test]
fn neighbors_are_the_entities_of_the_block() {
    let mut s = store();
    let mut id = 0;
    for x in -2..=2 {
        for y in -2..=2 {
            s.insert(id, QuadCoord::new(x, y));
            id += 1;
        }
    }
    // handles are 5 * (x + 2) + (y + 2)
    let found = sorted(s.neighbors(QuadCoord::new(0, 0)));
    assert_eq!(found, vec![6, 7, 8, 11, 12, 13, 16, 17, 18]);
    let corner = sorted(s.neighbors(QuadCoord::new(-2, -2)));
    assert_eq!(corner, vec![0, 1, 5, 6]);
    assert_eq!(s.neighbors(QuadCoord::new(10, 10)), Vec::<u64>::new());
}

#[test]
fn neighbors_name_each_entity_once() {
    let mut s = store();
    s.insert(1, QuadCoord::new(0, 0));
    s.insert(1, QuadCoord::new(1, 0));
    s.insert(2, QuadCoord::new(1, 1));
    assert_eq!(sorted(s.neighbors(QuadCoord::new(0, 0))), vec![1, 2]);
}

#[test]
fn neighbors_at_the_edge_of_the_coordinates() {
    let mut s = store();
    s.insert(1, QuadCoord::new(i32::MAX, i32::MAX));
    s.insert(2, QuadCoord::new(i32::MIN, i32::MIN));
    assert_eq!(s.neighbors(QuadCoord::new(i32::MAX, i32::MAX)), vec![1]);
    assert_eq!(s.neighbors(QuadCoord::new(i32::MIN, i32::MIN)), vec![2]);
    assert_eq!(s.neighbors(QuadCoord::new(i32::MAX - 1, i32::MAX - 1)), vec![1]);
}

#[test]
fn begin_pass_of_a_settled_grid_counts_anew() {
    let mut s = store();
    s.insert(1, QuadCoord::new(0, 0));
    assert_eq!(s.largest_count, 1);
    assert!(!s.begin_pass());
    assert_eq!(s.largest_count, 0);
    assert_eq!(s.quad_size, 25);
    assert_eq!(s.rebuild_store, Rebuild::KeepQuadSize);
    assert_eq!(s.members(QuadCoord::new(0, 0)), vec![1]);
}

#[test]
fn begin_pass_halves_the_cells_of_a_grid_that_is_to_shrink() {
    let mut s = store();
    s.insert(1, QuadCoord::new(0, 0));
    s.largest_count = 30;
    s.rebuild_store = Rebuild::ShrinkQuadSize;
    assert!(s.begin_pass());
    assert_eq!(s.quad_size, 12);
    assert_eq!(s.cell_count(), 0);
    assert_eq!(s.rebuild_store, Rebuild::KeepQuadSize);
    // only a grid that was to keep its size counts anew
    assert_eq!(s.largest_count, 30);
}

#[test]
fn begin_pass_doubles_the_cells_of_a_grid_that_is_to_grow() {
    let mut s = store();
    s.insert(1, QuadCoord::new(0, 0));
    s.rebuild_store = Rebuild::GrowQuadSize;
    assert!(s.begin_pass());
    assert_eq!(s.quad_size, 50);
    assert_eq!(s.cell_count(), 0);
    assert_eq!(s.rebuild_store, Rebuild::KeepQuadSize);
    assert_eq!(s.largest_count, 1);
}

#[test]
fn begin_pass_brings_the_new_cell_size_into_its_bounds() {
    let mut s = QuadStore::new(25, 20, 40, 1, 10).unwrap();
    s.rebuild_store = Rebuild::ShrinkQuadSize;
    assert!(s.begin_pass());
    assert_eq!(s.quad_size, 20);
    let mut s = QuadStore::new(25, 20, 40, 1, 10).unwrap();
    s.rebuild_store = Rebuild::GrowQuadSize;
    assert!(s.begin_pass());
    assert_eq!(s.quad_size, 40);
    let mut s = QuadStore::new(u32::MAX - 1, 1, u32::MAX, 2, 4).unwrap();
    s.rebuild_store = Rebuild::GrowQuadSize;
    assert!(s.begin_pass());
    assert_eq!(s.quad_size, u32::MAX);
}

#[test]
fn begin_pass_at_the_bound_of_the_cell_size_changes_only_the_flag() {
    let mut s = QuadStore::new(5, 5, 12, 2, 4).unwrap();
    s.insert(1, QuadCoord::new(0, 0));
    s.largest_count = 9;
    s.rebuild_store = Rebuild::ShrinkQuadSize;
    assert!(!s.begin_pass());
    assert_eq!(s.quad_size, 5);
    assert_eq!(s.rebuild_store, Rebuild::KeepQuadSize);
    assert_eq!(s.largest_count, 9);
    assert_eq!(s.members(QuadCoord::new(0, 0)), vec![1]);
    let mut s = QuadStore::new(12, 5, 12, 2, 4).unwrap();
    s.insert(1, QuadCoord::new(0, 0));
    s.rebuild_store = Rebuild::GrowQuadSize;
    assert!(!s.begin_pass());
    assert_eq!(s.quad_size, 12);
    assert_eq!(s.rebuild_store, Rebuild::KeepQuadSize);
    assert_eq!(s.members(QuadCoord::new(0, 0)), vec![1]);
}

#[test]
fn policy_keeps_a_grid_within_its_thresholds() {
    let mut s = QuadStore::new(25, 5, 100, 1, 3).unwrap();
    for count in 1..=3 {
        s.insert(count, QuadCoord::new(0, 0));
        assert_eq!(s.largest_count, count as usize);
        s.rebuild_store = Rebuild::GrowQuadSize;
        s.tick_rebuild_policy();
        assert_eq!(s.rebuild_store, Rebuild::KeepQuadSize);
        assert_eq!(s.quad_size, 25);
        assert_eq!(s.members(QuadCoord::new(0, 0)).len(), count as usize);
    }
    // a second call changes nothing either
    s.tick_rebuild_policy();
    assert_eq!(s.rebuild_store, Rebuild::KeepQuadSize);
    assert_eq!(s.quad_size, 25);
    assert_eq!(s.cell_count(), 1);
    assert_eq!(s.largest_count, 3);
}

#[test]
fn policy_asks_a_crowded_grid_to_shrink() {
    let mut s = QuadStore::new(25, 5, 100, 1, 2).unwrap();
    for id in 0..3 {
        s.insert(id, QuadCoord::new(0, 0));
    }
    s.tick_rebuild_policy();
    assert_eq!(s.rebuild_store, Rebuild::ShrinkQuadSize);
    // the policy itself touches neither the size nor the cells
    assert_eq!(s.quad_size, 25);
    assert_eq!(s.members(QuadCoord::new(0, 0)).len(), 3);
    assert_eq!(s.largest_count, 3);
}

#[test]
fn policy_asks_a_sparse_grid_to_grow() {
    let mut s = QuadStore::new(25, 5, 100, 2, 4).unwrap();
    s.insert(1, QuadCoord::new(0, 0));
    s.tick_rebuild_policy();
    assert_eq!(s.rebuild_store, Rebuild::GrowQuadSize);
    assert_eq!(s.quad_size, 25);
    assert_eq!(s.members(QuadCoord::new(0, 0)), vec![1]);
}

#[test]
fn policy_asks_without_regard_to_the_bounds_of_the_cell_size() {
    let mut s = QuadStore::new(5, 5, 5, 2, 4).unwrap();
    s.largest_count = 9;
    s.tick_rebuild_policy();
    assert_eq!(s.rebuild_store, Rebuild::ShrinkQuadSize);
    s.largest_count = 0;
    s.tick_rebuild_policy();
    assert_eq!(s.rebuild_store, Rebuild::GrowQuadSize);
    assert_eq!(s.quad_size, 5);
}

#[test]
fn cell_size_stays_within_its_bounds() {
    let mut s = QuadStore::new(25, 5, 100, 2, 4).unwrap();
    for step in 0..40 {
        s.begin_pass();
        s.largest_count = if step % 7 < 4 { 9 } else { 0 };
        s.tick_rebuild_policy();
        assert!(s.min_quad_size <= s.quad_size && s.quad_size <= s.max_quad_size);
    }
}
