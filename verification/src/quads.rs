//! One pass of the grid over the entities that it indexes.

use crate::cells::no_cells;
use crate::grid_laws::pass_files_every_entity_once;
use crate::quad::QuadCoord;
use crate::quad_store::{
    filed_only_under, opening_count, recorded, resized_size, resizes, verdict, QuadStore,
};
use crate::vector::Position;
use vstd::prelude::*;

verus! {

/// What the grid needs to know of one entity: its handle, where it is, and
/// the coordinate stored with it (see [`QuadStore::reindex`]).
#[derive(PartialEq, Eq, Clone, Copy, Debug, Structural)]
pub struct GridAgent {
    pub entity: u64,
    pub position: Position,
    pub coord: QuadCoord,
}

/// The cells after the entities of `agents` have been reindexed in turn, in
/// a grid with cells of side `size`.
pub open spec fn pass_cells(
    cells: Map<(i32, i32), Set<u64>>,
    agents: Seq<GridAgent>,
    size: u32,
) -> Map<(i32, i32), Set<u64>>
    decreases agents.len(),
{
    if agents.len() == 0 {
        cells
    } else {
        let agent = agents.last();
        QuadStore::reindexed_cells(
            pass_cells(cells, agents.drop_last(), size),
            agent.entity,
            agent.coord,
            QuadCoord::containing(agent.position, size),
        )
    }
}

/// The largest population counted after the same steps.
pub open spec fn pass_count(
    cells: Map<(i32, i32), Set<u64>>,
    largest_count: int,
    agents: Seq<GridAgent>,
    size: u32,
) -> int
    decreases agents.len(),
{
    if agents.len() == 0 {
        largest_count
    } else {
        let agent = agents.last();
        QuadStore::reindexed_count(
            pass_cells(cells, agents.drop_last(), size),
            pass_count(cells, largest_count, agents.drop_last(), size),
            agent.entity,
            agent.coord,
            QuadCoord::containing(agent.position, size),
        )
    }
}

/// No two entities of `agents` bear the same handle.
pub open spec fn distinct_handles(agents: Seq<GridAgent>) -> bool {
    forall|i: int, j: int|
        0 <= i < j < agents.len() ==> (#[trigger] agents[i]).entity != (
        #[trigger] agents[j]).entity
}

/// The entities of `agents` have handles of their own, and the coordinate
/// stored with each agrees with the grid.
pub open spec fn all_recorded(cells: Map<(i32, i32), Set<u64>>, agents: Seq<GridAgent>) -> bool {
    &&& forall|i: int|
        0 <= i < agents.len() ==> recorded(cells, (#[trigger] agents[i]).entity, agents[i].coord)
    &&& distinct_handles(agents)
}

/// The entities of `agents`, each with the coordinate of one not indexed
/// yet.
pub open spec fn unfiled(agents: Seq<GridAgent>) -> Seq<GridAgent> {
    Seq::new(
        agents.len(),
        |i: int|
            GridAgent {
                entity: agents[i].entity,
                position: agents[i].position,
                coord: QuadCoord::unassigned(),
            },
    )
}

/// The cells that a pass starts from: none where the grid has changed its
/// cell size at the opening of the pass.
pub open spec fn opened_cells(resized: bool, cells: Map<(i32, i32), Set<u64>>) -> Map<
    (i32, i32),
    Set<u64>,
> {
    if resized {
        no_cells()
    } else {
        cells
    }
}

/// The entities as a pass starts with them: all of them not indexed yet
/// where the grid has changed its cell size at the opening of the pass.
pub open spec fn opened_agents(resized: bool, agents: Seq<GridAgent>) -> Seq<GridAgent> {
    if resized {
        unfiled(agents)
    } else {
        agents
    }
}

/// One pass of the grid over the entities of `agents`.
///
/// The pass opens by acting on what the pass before has asked for (see
/// [`QuadStore::begin_pass`]): a grid that was to shrink or to grow changes
/// its cell size, drops all its cells, and takes every entity as one not
/// indexed yet, also one whose cell is the same at the new size; the result
/// says whether this happened. Then every entity is reindexed in turn, at
/// the cell size that the grid now has. The pass closes by deciding what
/// the next pass is to do about the cell size (see
/// [`QuadStore::tick_rebuild_policy`]); this changes neither size nor cells.
///
/// After a pass over entities with handles of their own, whose stored
/// coordinates agreed with the grid before or were dropped by a change of
/// size, exactly one cell holds each entity: the one that holds its
/// position.
pub fn naive_quad_system(store: &mut QuadStore, agents: &mut Vec<GridAgent>) -> (resized: bool)
    requires
        old(store).wf(),
    ensures
        final(store).wf(),
        final(store).max_quad_size == old(store).max_quad_size,
        final(store).min_quad_size == old(store).min_quad_size,
        final(store).max_entities == old(store).max_entities,
        final(store).min_entities == old(store).min_entities,
        resized == resizes(
            old(store).rebuild_store,
            old(store).quad_size,
            old(store).min_quad_size,
            old(store).max_quad_size,
        ),
        final(store).quad_size == resized_size(
            old(store).rebuild_store,
            old(store).quad_size,
            old(store).min_quad_size,
            old(store).max_quad_size,
        ),
        final(store)@ == pass_cells(
            opened_cells(resized, old(store)@),
            opened_agents(resized, old(agents)@),
            final(store).quad_size,
        ),
        final(store).largest_count == pass_count(
            opened_cells(resized, old(store)@),
            opening_count(old(store).rebuild_store, old(store).largest_count as int),
            opened_agents(resized, old(agents)@),
            final(store).quad_size,
        ),
        final(store).rebuild_store == verdict(
            final(store).largest_count as int,
            old(store).min_entities,
            old(store).max_entities,
        ),
        final(agents)@.len() == old(agents)@.len(),
        forall|j: int|
            0 <= j < old(agents)@.len() ==> {
                &&& (#[trigger] final(agents)@[j]).entity == old(agents)@[j].entity
                &&& final(agents)@[j].position == old(agents)@[j].position
                &&& final(agents)@[j].coord == QuadCoord::containing(
                    old(agents)@[j].position,
                    final(store).quad_size,
                )
            },
        distinct_handles(old(agents)@) && (resized || all_recorded(old(store)@, old(agents)@)) ==> {
            &&& all_recorded(final(store)@, final(agents)@)
            &&& forall|j: int|
                0 <= j < final(agents)@.len() ==> filed_only_under(
                    final(store)@,
                    (#[trigger] final(agents)@[j]).entity,
                    final(agents)@[j].coord,
                )
        },
{
    let resized = store.begin_pass();
    let n = agents.len();
    if resized {
        let mut j: usize = 0;
        while j < n
            invariant
                0 <= j <= n,
                agents@.len() == n,
                n == old(agents)@.len(),
                forall|m: int|
                    0 <= m < n ==> {
                        &&& (#[trigger] agents@[m]).entity == old(agents)@[m].entity
                        &&& agents@[m].position == old(agents)@[m].position
                        &&& agents@[m].coord == if m < j {
                            QuadCoord::unassigned()
                        } else {
                            old(agents)@[m].coord
                        }
                    },
            decreases n - j,
        {
            let agent = agents[j];
            agents[j] = GridAgent {
                entity: agent.entity,
                position: agent.position,
                coord: QuadCoord::default(),
            };
            j += 1;
        }
    }
    let ghost opened = agents@;
    let ghost cells = store@;
    let ghost size = store.quad_size;
    let ghost start = store.largest_count as int;
    assert(opened =~= opened_agents(resized, old(agents)@));
    let mut i: usize = 0;
    while i < n
        invariant
            0 <= i <= n,
            agents@.len() == n,
            n == opened.len(),
            store.wf(),
            store.quad_size == size,
            store.max_quad_size == old(store).max_quad_size,
            store.min_quad_size == old(store).min_quad_size,
            store.max_entities == old(store).max_entities,
            store.min_entities == old(store).min_entities,
            store.rebuild_store == crate::quad::Rebuild::KeepQuadSize,
            store@ == pass_cells(cells, opened.take(i as int), size),
            store.largest_count == pass_count(cells, start, opened.take(i as int), size),
            forall|j: int|
                0 <= j < n ==> {
                    &&& (#[trigger] agents@[j]).entity == opened[j].entity
                    &&& agents@[j].position == opened[j].position
                    &&& agents@[j].coord == if j < i {
                        QuadCoord::containing(opened[j].position, size)
                    } else {
                        opened[j].coord
                    }
                },
        decreases n - i,
    {
        let agent = agents[i];
        let mut coord = agent.coord;
        store.reindex(agent.entity, agent.position, &mut coord);
        agents[i] = GridAgent { entity: agent.entity, position: agent.position, coord };
        proof {
            assert(opened.take(i + 1).drop_last() =~= opened.take(i as int));
        }
        i += 1;
    }
    assert(opened.take(n as int) =~= opened);
    store.tick_rebuild_policy();
    proof {
        if distinct_handles(old(agents)@) && (resized || all_recorded(old(store)@, old(agents)@)) {
            assert forall|i: int| 0 <= i < opened.len() implies recorded(
                cells,
                (#[trigger] opened[i]).entity,
                opened[i].coord,
            ) by {
                if !resized {
                    assert(recorded(old(store)@, old(agents)@[i].entity, old(agents)@[i].coord));
                }
            }
            assert forall|i: int, j: int| 0 <= i < j < opened.len() implies (
            #[trigger] opened[i]).entity != (#[trigger] opened[j]).entity by {
                assert(old(agents)@[i].entity != old(agents)@[j].entity);
            }
            pass_files_every_entity_once(cells, opened, size);
            assert forall|j: int| 0 <= j < agents@.len() implies filed_only_under(
                store@,
                (#[trigger] agents@[j]).entity,
                agents@[j].coord,
            ) by {
                assert(filed_only_under(
                    store@,
                    opened[j].entity,
                    QuadCoord::containing(opened[j].position, size),
                ));
            }
            assert forall|i: int| 0 <= i < agents@.len() implies recorded(
                store@,
                (#[trigger] agents@[i]).entity,
                agents@[i].coord,
            ) by {
                assert(filed_only_under(store@, agents@[i].entity, agents@[i].coord));
                assert(crate::quad_store::holds(
                    store@,
                    agents@[i].coord.key(),
                    agents@[i].entity,
                ));
            }
            assert forall|i: int, j: int| 0 <= i < j < agents@.len() implies (
            #[trigger] agents@[i]).entity != (#[trigger] agents@[j]).entity by {
                assert(opened[i].entity != opened[j].entity);
            }
        }
    }
    resized
}

} // verus!
