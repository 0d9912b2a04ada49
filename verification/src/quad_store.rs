//! The grid index: which entity handles stand in which cell, and how large a
//! cell is.

use crate::cells::{cell_map_cells, entity_set_members, no_cells, CellMap, EntitySet};
use crate::grid_laws::{neighbors_are_the_entities_of_the_block, reindex_files_entity_once};
use crate::quad::{QuadCoord, Rebuild, UNASSIGNED};
use crate::vector::Position;
use vstd::prelude::*;

verus! {

/// The handles filed under `k`; none where the grid holds no such cell.
pub open spec fn members_at(cells: Map<(i32, i32), Set<u64>>, k: (i32, i32)) -> Set<u64> {
    if cells.contains_key(k) {
        cells[k]
    } else {
        Set::empty()
    }
}

/// Whether the cell filed under `k` holds `entity`.
pub open spec fn holds(cells: Map<(i32, i32), Set<u64>>, k: (i32, i32), entity: u64) -> bool {
    cells.contains_key(k) && cells[k].contains(entity)
}

/// The grid after `entity` has left the cell `k`. A cell that is left without
/// a handle leaves the grid.
pub open spec fn cells_without(
    cells: Map<(i32, i32), Set<u64>>,
    k: (i32, i32),
    entity: u64,
) -> Map<(i32, i32), Set<u64>> {
    if cells.contains_key(k) {
        if cells[k].remove(entity) == Set::<u64>::empty() {
            cells.remove(k)
        } else {
            cells.insert(k, cells[k].remove(entity))
        }
    } else {
        cells
    }
}

/// The grid after `entity` has entered the cell `k`.
pub open spec fn cells_with(
    cells: Map<(i32, i32), Set<u64>>,
    k: (i32, i32),
    entity: u64,
) -> Map<(i32, i32), Set<u64>> {
    cells.insert(k, members_at(cells, k).insert(entity))
}

/// No cell of the grid is without a handle.
pub open spec fn no_empty_cell(cells: Map<(i32, i32), Set<u64>>) -> bool {
    forall|k: (i32, i32)| #[trigger] cells.contains_key(k) ==> cells[k] != Set::<u64>::empty()
}

/// The coordinate stored with `entity` agrees with the grid: no cell but the
/// stored one holds the entity, and the stored one does hold it, unless what
/// is stored is the coordinate of an entity not indexed yet.
pub open spec fn recorded(cells: Map<(i32, i32), Set<u64>>, entity: u64, coord: QuadCoord) -> bool {
    &&& forall|k: (i32, i32)| #[trigger] holds(cells, k, entity) ==> k == coord.key()
    &&& coord != QuadCoord::unassigned() ==> holds(cells, coord.key(), entity)
}

/// The cell `coord` holds `entity`, and no other cell does.
pub open spec fn filed_only_under(
    cells: Map<(i32, i32), Set<u64>>,
    entity: u64,
    coord: QuadCoord,
) -> bool {
    forall|k: (i32, i32)| #[trigger] holds(cells, k, entity) <==> k == coord.key()
}

/// `size` brought into `min ..= max`.
pub open spec fn clamped(size: int, min: u32, max: u32) -> u32 {
    if size < min {
        min
    } else if size > max {
        max
    } else {
        size as u32
    }
}

/// The larger of two counts.
pub open spec fn larger(a: int, b: int) -> int {
    if a >= b {
        a
    } else {
        b
    }
}

/// The count of the largest population at the opening of a pass: a grid that
/// had settled on its cell size counts anew; one that was to shrink or to
/// grow goes on with the count it had.
pub open spec fn opening_count(rebuild_store: Rebuild, largest_count: int) -> int {
    if rebuild_store == Rebuild::KeepQuadSize {
        0
    } else {
        largest_count
    }
}

/// What the largest population counted in a pass asks of the next pass:
/// smaller cells where it is above `max_entities`, larger ones where it is
/// below `min_entities`.
pub open spec fn verdict(largest_count: int, min_entities: usize, max_entities: usize) -> Rebuild {
    if largest_count > max_entities {
        Rebuild::ShrinkQuadSize
    } else if largest_count < min_entities {
        Rebuild::GrowQuadSize
    } else {
        Rebuild::KeepQuadSize
    }
}

/// Whether a grid that opens a pass with this flag changes its cell size: not
/// where the size already stands at the bound it would move toward.
pub open spec fn resizes(flag: Rebuild, size: u32, min: u32, max: u32) -> bool {
    match flag {
        Rebuild::KeepQuadSize => false,
        Rebuild::ShrinkQuadSize => size > min,
        Rebuild::GrowQuadSize => size < max,
    }
}

/// The cell size that a grid goes on with when it opens a pass with this
/// flag: half the size to shrink, twice the size to grow, each brought into
/// the bounds of the size.
pub open spec fn resized_size(flag: Rebuild, size: u32, min: u32, max: u32) -> u32 {
    match flag {
        Rebuild::KeepQuadSize => size,
        Rebuild::ShrinkQuadSize => clamped(size as int / 2, min, max),
        Rebuild::GrowQuadSize => clamped(size as int * 2, min, max),
    }
}

/// Why a grid cannot be set up.
#[derive(PartialEq, Eq, Clone, Copy, Debug, Structural)]
pub enum QuadStoreError {
    /// The smallest cell size is zero.
    ZeroQuadSize,
    /// The smallest cell size is above the largest.
    QuadSizeBounds,
    /// The smallest wanted population of a cell is above the largest.
    EntityBounds,
}

/// The grid index.
pub struct QuadStore {
    pub entities: CellMap,
    pub quad_size: u32,
    pub max_quad_size: u32,
    pub min_quad_size: u32,
    pub max_entities: usize,
    pub min_entities: usize,
    pub largest_count: usize,
    pub rebuild_store: Rebuild,
}

impl View for QuadStore {
    type V = Map<(i32, i32), Set<u64>>;

    /// The cells of the grid, each with the handles in it.
    open spec fn view(&self) -> Map<(i32, i32), Set<u64>> {
        cell_map_cells(self.entities)
    }
}

impl QuadStore {
    /// The cell size lies within its bounds, which are in order and above
    /// zero, the population thresholds are in order, and no cell is empty.
    pub open spec fn wf(&self) -> bool {
        &&& 0 < self.min_quad_size <= self.quad_size <= self.max_quad_size
        &&& self.min_entities <= self.max_entities
        &&& no_empty_cell(self@)
    }

    /// Whether `self` and `other` agree in all but their cells and their
    /// population count.
    pub open spec fn same_settings(&self, other: &QuadStore) -> bool {
        &&& self.quad_size == other.quad_size
        &&& self.max_quad_size == other.max_quad_size
        &&& self.min_quad_size == other.min_quad_size
        &&& self.max_entities == other.max_entities
        &&& self.min_entities == other.min_entities
        &&& self.rebuild_store == other.rebuild_store
    }

    /// What is wrong with the given bounds, if anything; the first fault
    /// found is the one reported.
    pub open spec fn fault(
        min_quad_size: u32,
        max_quad_size: u32,
        min_entities: usize,
        max_entities: usize,
    ) -> Option<QuadStoreError> {
        if min_quad_size == 0 {
            Some(QuadStoreError::ZeroQuadSize)
        } else if min_quad_size > max_quad_size {
            Some(QuadStoreError::QuadSizeBounds)
        } else if min_entities > max_entities {
            Some(QuadStoreError::EntityBounds)
        } else {
            None
        }
    }

    /// A grid without cells. The cell size starts at `quad_size`, brought
    /// into its bounds. Bounds that are out of order are refused.
    pub fn new(
        quad_size: u32,
        min_quad_size: u32,
        max_quad_size: u32,
        min_entities: usize,
        max_entities: usize,
    ) -> (made: Result<QuadStore, QuadStoreError>)
        ensures
            match made {
                Ok(store) => {
                    &&& Self::fault(min_quad_size, max_quad_size, min_entities, max_entities)
                        is None
                    &&& store.wf()
                    &&& store@ == no_cells()
                    &&& store.quad_size == clamped(quad_size as int, min_quad_size, max_quad_size)
                    &&& store.min_quad_size == min_quad_size
                    &&& store.max_quad_size == max_quad_size
                    &&& store.min_entities == min_entities
                    &&& store.max_entities == max_entities
                    &&& store.largest_count == 0
                    &&& store.rebuild_store == Rebuild::KeepQuadSize
                },
                Err(e) => Self::fault(min_quad_size, max_quad_size, min_entities, max_entities)
                    == Some(e),
            },
    {
        if min_quad_size == 0 {
            return Err(QuadStoreError::ZeroQuadSize);
        }
        if min_quad_size > max_quad_size {
            return Err(QuadStoreError::QuadSizeBounds);
        }
        if min_entities > max_entities {
            return Err(QuadStoreError::EntityBounds);
        }
        let size: u32 = if quad_size < min_quad_size {
            min_quad_size
        } else if quad_size > max_quad_size {
            max_quad_size
        } else {
            quad_size
        };
        Ok(
            QuadStore {
                entities: CellMap::new(),
                quad_size: size,
                max_quad_size,
                min_quad_size,
                max_entities,
                min_entities,
                largest_count: 0,
                rebuild_store: Rebuild::KeepQuadSize,
            },
        )
    }

    /// The number of cells that hold a handle.
    pub fn cell_count(&self) -> (n: usize)
        ensures
            n == self@.dom().len(),
    {
        self.entities.len()
    }

    /// The handles in the cell `coord`, each once, in no stated order.
    pub fn members(&self, coord: QuadCoord) -> (found: Vec<u64>)
        ensures
            found@.no_duplicates(),
            found@.to_set() == members_at(self@, coord.key()),
    {
        match self.entities.get(coord.x, coord.y) {
            Some(set) => set.to_vec(),
            None => {
                let none: Vec<u64> = Vec::new();
                none
            },
        }
    }

    /// Whether the cell `coord` holds `entity`.
    pub fn contains(&self, entity: u64, coord: QuadCoord) -> (present: bool)
        ensures
            present == holds(self@, coord.key(), entity),
    {
        match self.entities.get(coord.x, coord.y) {
            Some(set) => set.contains(entity),
            None => false,
        }
    }

    /// Files `entity` under `coord`, and keeps count of the largest
    /// population that a cell has reached.
    pub fn insert(&mut self, entity: u64, coord: QuadCoord)
        requires
            old(self).wf(),
        ensures
            final(self).wf(),
            final(self).same_settings(old(self)),
            final(self)@ == cells_with(old(self)@, coord.key(), entity),
            final(self).largest_count == larger(
                old(self).largest_count as int,
                members_at(final(self)@, coord.key()).len() as int,
            ),
    {
        let taken = self.entities.take(coord.x, coord.y);
        let mut set = match taken {
            Some(found) => found,
            None => EntitySet::new(),
        };
        let _ = set.insert(entity);
        let n = set.len();
        self.entities.put(coord.x, coord.y, set);
        if n > self.largest_count {
            self.largest_count = n;
        }
        proof {
            assert(entity_set_members(set).contains(entity));
            assert(self@ =~= cells_with(old(self)@, coord.key(), entity));
        }
    }

    /// Takes `entity` out of the cell `coord`. A cell that is left without a
    /// handle leaves the grid.
    pub fn remove(&mut self, entity: u64, coord: QuadCoord)
        requires
            old(self).wf(),
        ensures
            final(self).wf(),
            final(self).same_settings(old(self)),
            final(self).largest_count == old(self).largest_count,
            final(self)@ == cells_without(old(self)@, coord.key(), entity),
    {
        let taken = self.entities.take(coord.x, coord.y);
        match taken {
            Some(mut set) => {
                let _ = set.remove(entity);
                if !set.is_empty() {
                    self.entities.put(coord.x, coord.y, set);
                }
            },
            None => {},
        }
        proof {
            assert(self@ =~= cells_without(old(self)@, coord.key(), entity));
        }
    }

    /// The grid after the entity whose stored coordinate is `from` has been
    /// found in the cell `to`. An entity that is found where it was stored
    /// changes nothing, unless what was stored is the coordinate of an entity
    /// not indexed yet.
    pub open spec fn reindexed_cells(
        cells: Map<(i32, i32), Set<u64>>,
        entity: u64,
        from: QuadCoord,
        to: QuadCoord,
    ) -> Map<(i32, i32), Set<u64>> {
        if from == to && to != QuadCoord::unassigned() {
            cells
        } else {
            cells_with(cells_without(cells, from.key(), entity), to.key(), entity)
        }
    }

    /// The largest population counted so far, after the same step.
    pub open spec fn reindexed_count(
        cells: Map<(i32, i32), Set<u64>>,
        largest_count: int,
        entity: u64,
        from: QuadCoord,
        to: QuadCoord,
    ) -> int {
        if from == to && to != QuadCoord::unassigned() {
            largest_count
        } else {
            larger(
                largest_count,
                members_at(Self::reindexed_cells(cells, entity, from, to), to.key()).len() as int,
            )
        }
    }

    /// Brings the grid up to date with where `entity` now is. `coord` is the
    /// coordinate stored with the entity: the cell it was last filed under, or
    /// [`QuadCoord::default`] if it was never filed. The entity leaves that
    /// cell and enters the cell that holds `position`, which is stored in
    /// `coord`. Where the stored coordinate agreed with the grid, exactly one
    /// cell holds the entity afterwards: the one that holds `position`.
    pub fn reindex(&mut self, entity: u64, position: Position, coord: &mut QuadCoord)
        requires
            old(self).wf(),
        ensures
            final(self).wf(),
            final(self).same_settings(old(self)),
            *final(coord) == QuadCoord::containing(position, old(self).quad_size),
            final(self)@ == Self::reindexed_cells(old(self)@, entity, *old(coord), *final(coord)),
            final(self).largest_count == Self::reindexed_count(
                old(self)@,
                old(self).largest_count as int,
                entity,
                *old(coord),
                *final(coord),
            ),
            recorded(old(self)@, entity, *old(coord)) ==> filed_only_under(
                final(self)@,
                entity,
                *final(coord),
            ) && recorded(final(self)@, entity, *final(coord)),
    {
        let new_coord = QuadCoord::of(position, self.quad_size);
        let old_coord = *coord;
        let stays = new_coord.x == old_coord.x && new_coord.y == old_coord.y && !(new_coord.x
            == UNASSIGNED && new_coord.y == UNASSIGNED);
        if !stays {
            self.remove(entity, old_coord);
            self.insert(entity, new_coord);
            coord.x = new_coord.x;
            coord.y = new_coord.y;
        }
        proof {
            if recorded(old(self)@, entity, old_coord) {
                reindex_files_entity_once(old(self)@, entity, old_coord, new_coord);
            }
        }
    }

    /// Opens a pass over the entities, and acts on what the pass before has
    /// asked for. A grid that was to keep its cell size starts its count of
    /// the largest population anew. A grid that was to shrink halves its cell
    /// size, one that was to grow doubles it, each within the bounds of the
    /// size; a grid whose cell size changes drops all its cells, and the
    /// result says so. A cell size that already stands at the bound in
    /// question stays, and the cells with it. Either way the flag is back at
    /// keeping the size.
    pub fn begin_pass(&mut self) -> (resized: bool)
        requires
            old(self).wf(),
        ensures
            final(self).wf(),
            final(self).max_quad_size == old(self).max_quad_size,
            final(self).min_quad_size == old(self).min_quad_size,
            final(self).max_entities == old(self).max_entities,
            final(self).min_entities == old(self).min_entities,
            final(self).rebuild_store == Rebuild::KeepQuadSize,
            final(self).largest_count == opening_count(
                old(self).rebuild_store,
                old(self).largest_count as int,
            ),
            resized == resizes(
                old(self).rebuild_store,
                old(self).quad_size,
                old(self).min_quad_size,
                old(self).max_quad_size,
            ),
            final(self).quad_size == resized_size(
                old(self).rebuild_store,
                old(self).quad_size,
                old(self).min_quad_size,
                old(self).max_quad_size,
            ),
            final(self).min_quad_size <= final(self).quad_size <= final(self).max_quad_size,
            final(self)@ == if resized {
                no_cells()
            } else {
                old(self)@
            },
    {
        let mut resized = false;
        match self.rebuild_store {
            Rebuild::KeepQuadSize => {
                self.largest_count = 0;
            },
            Rebuild::ShrinkQuadSize => {
                if self.quad_size > self.min_quad_size {
                    self.entities.clear();
                    let half: u32 = self.quad_size / 2;
                    self.quad_size = if half < self.min_quad_size {
                        self.min_quad_size
                    } else {
                        half
                    };
                    resized = true;
                }
                self.rebuild_store = Rebuild::KeepQuadSize;
            },
            Rebuild::GrowQuadSize => {
                if self.quad_size < self.max_quad_size {
                    self.entities.clear();
                    let twice: u64 = self.quad_size as u64 * 2;
                    self.quad_size = if twice > self.max_quad_size as u64 {
                        self.max_quad_size
                    } else {
                        twice as u32
                    };
                    resized = true;
                }
                self.rebuild_store = Rebuild::KeepQuadSize;
            },
        }
        resized
    }

    /// Closes a pass: decides from the largest population counted what the
    /// next pass is to do about the cell size, and sets the flag to it. Too
    /// many entities in one cell ask for smaller cells, too few in every cell
    /// for larger ones; a population within the thresholds leaves the flag at
    /// keeping the size. Neither the cell size nor the cells change.
    pub fn tick_rebuild_policy(&mut self)
        requires
            old(self).wf(),
        ensures
            final(self).wf(),
            final(self).quad_size == old(self).quad_size,
            final(self).max_quad_size == old(self).max_quad_size,
            final(self).min_quad_size == old(self).min_quad_size,
            final(self).max_entities == old(self).max_entities,
            final(self).min_entities == old(self).min_entities,
            final(self).largest_count == old(self).largest_count,
            final(self)@ == old(self)@,
            final(self).rebuild_store == verdict(
                old(self).largest_count as int,
                old(self).min_entities,
                old(self).max_entities,
            ),
            old(self).min_entities <= old(self).largest_count <= old(self).max_entities
                ==> final(self).rebuild_store == Rebuild::KeepQuadSize,
    {
        if self.largest_count > self.max_entities {
            self.rebuild_store = Rebuild::ShrinkQuadSize;
        } else if self.largest_count < self.min_entities {
            self.rebuild_store = Rebuild::GrowQuadSize;
        } else {
            self.rebuild_store = Rebuild::KeepQuadSize;
        }
    }

    /// The handles in the block of three by three cells around `coord`.
    pub open spec fn block_members(cells: Map<(i32, i32), Set<u64>>, coord: QuadCoord) -> Set<
        u64,
    > {
        Set::new(|e: u64| exists|k: (i32, i32)| coord.adjoins(k) && #[trigger] holds(cells, k, e))
    }

    /// The handles in the cell `coord` and in the eight cells around it, each
    /// once, in no stated order. A cell that the grid does not hold adds
    /// nothing. An entity that exactly one cell holds is among them if and
    /// only if that cell is one of the nine.
    pub fn neighbors(&self, coord: QuadCoord) -> (found: Vec<u64>)
        ensures
            found@.no_duplicates(),
            found@.to_set() == Self::block_members(self@, coord),
            forall|entity: u64, cell: QuadCoord| #[trigger]
                filed_only_under(self@, entity, cell) ==> (found@.contains(entity)
                    <==> coord.adjoins(cell.key())),
    {
        let mut union = EntitySet::new();
        let mut i: i64 = 0;
        while i < 9
            invariant
                0 <= i <= 9,
                entity_set_members(union) == block_prefix(self@, coord, i as int),
            decreases 9 - i,
        {
            let x: i64 = coord.x as i64 + i / 3 - 1;
            let y: i64 = coord.y as i64 + i % 3 - 1;
            let ghost before = entity_set_members(union);
            let ghost mut added = Set::<u64>::empty();
            if i32::MIN as i64 <= x && x <= i32::MAX as i64 && i32::MIN as i64 <= y && y
                <= i32::MAX as i64 {
                match self.entities.get(x as i32, y as i32) {
                    Some(set) => {
                        let members = set.to_vec();
                        absorb(&mut union, &members);
                        proof {
                            added = self@[(x as i32, y as i32)];
                        }
                    },
                    None => {},
                }
            }
            proof {
                assert forall|e: u64| #[trigger]
                    block_prefix(self@, coord, i + 1).contains(e) implies before.union(
                    added,
                ).contains(e) by {
                    let k = choose|k: (i32, i32)|
                        coord.adjoins(k) && block_rank(coord, k) < i + 1 && #[trigger] holds(
                            self@,
                            k,
                            e,
                        );
                    if block_rank(coord, k) == i {
                        assert(k.0 == x && k.1 == y);
                    } else {
                        assert(block_prefix(self@, coord, i as int).contains(e));
                    }
                }
                assert forall|e: u64| #[trigger]
                    before.union(added).contains(e) implies block_prefix(
                    self@,
                    coord,
                    i + 1,
                ).contains(e) by {
                    if added.contains(e) {
                        let k = (x as i32, y as i32);
                        assert(coord.adjoins(k) && block_rank(coord, k) == i && holds(self@, k, e));
                    } else {
                        let k = choose|k: (i32, i32)|
                            coord.adjoins(k) && block_rank(coord, k) < i && #[trigger] holds(
                                self@,
                                k,
                                e,
                            );
                        assert(coord.adjoins(k) && block_rank(coord, k) < i + 1 && holds(
                            self@,
                            k,
                            e,
                        ));
                    }
                }
            }
            i += 1;
        }
        let found = union.to_vec();
        proof {
            assert forall|e: u64| #[trigger]
                Self::block_members(self@, coord).contains(e) implies block_prefix(
                self@,
                coord,
                9,
            ).contains(e) by {
                let k = choose|k: (i32, i32)| coord.adjoins(k) && #[trigger] holds(self@, k, e);
                assert(coord.adjoins(k) && block_rank(coord, k) < 9 && holds(self@, k, e));
            }
            assert forall|entity: u64, cell: QuadCoord| #[trigger]
                filed_only_under(self@, entity, cell) implies (found@.contains(entity)
                <==> coord.adjoins(cell.key())) by {
                neighbors_are_the_entities_of_the_block(self@, coord, entity, cell);
                assert(found@.to_set().contains(entity) == found@.contains(entity));
            }
        }
        found
    }
}

/// The place of the cell `k` in the block around `coord`, counted column by
/// column from the corner with the smallest coordinates.
pub open spec fn block_rank(coord: QuadCoord, k: (i32, i32)) -> int {
    (k.0 - coord.x + 1) * 3 + (k.1 - coord.y + 1)
}

/// The handles in the first `n` cells of the block around `coord`.
pub open spec fn block_prefix(cells: Map<(i32, i32), Set<u64>>, coord: QuadCoord, n: int) -> Set<
    u64,
> {
    Set::new(
        |e: u64|
            exists|k: (i32, i32)|
                coord.adjoins(k) && block_rank(coord, k) < n && #[trigger] holds(cells, k, e),
    )
}

/// Adds every handle of `members` to `union`.
fn absorb(union: &mut EntitySet, members: &Vec<u64>)
    ensures
        entity_set_members(*final(union)) == entity_set_members(*old(union)).union(
            members@.to_set(),
        ),
{
    let mut j: usize = 0;
    assert(entity_set_members(*union) =~= entity_set_members(*old(union)).union(
        members@.take(0).to_set(),
    ));
    while j < members.len()
        invariant
            0 <= j <= members.len(),
            entity_set_members(*union) == entity_set_members(*old(union)).union(
                members@.take(j as int).to_set(),
            ),
        decreases members.len() - j,
    {
        let _ = union.insert(members[j]);
        proof {
            let head = members@.take(j as int);
            head.lemma_push_to_set_commute(members@[j as int]);
            assert(members@.take(j + 1) =~= head.push(members@[j as int]));
            assert(entity_set_members(*union) =~= entity_set_members(*old(union)).union(
                members@.take(j + 1).to_set(),
            ));
        }
        j += 1;
    }
    assert(members@.take(members.len() as int) =~= members@);
}

} // verus!
