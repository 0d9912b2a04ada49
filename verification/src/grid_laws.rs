//! What holds of the grid whatever the entities do.

use crate::quad::QuadCoord;
use crate::quad_store::{
    cells_with, cells_without, filed_only_under, holds, no_empty_cell, recorded, QuadStore,
};
use crate::quads::{pass_cells, pass_count, GridAgent};
use vstd::prelude::*;

verus! {

/// After an entity has been reindexed, exactly one cell holds it: the cell
/// that it was found in. This holds for an entity whose stored coordinate
/// agreed with the grid before.
pub proof fn reindex_files_entity_once(
    cells: Map<(i32, i32), Set<u64>>,
    entity: u64,
    from: QuadCoord,
    to: QuadCoord,
)
    requires
        recorded(cells, entity, from),
    ensures
        filed_only_under(QuadStore::reindexed_cells(cells, entity, from, to), entity, to),
        recorded(QuadStore::reindexed_cells(cells, entity, from, to), entity, to),
{
    let after = QuadStore::reindexed_cells(cells, entity, from, to);
    let between = cells_without(cells, from.key(), entity);
    if from != to || to == QuadCoord::unassigned() {
        assert forall|k: (i32, i32)| !holds(between, k, entity) by {
            if holds(between, k, entity) {
                assert(holds(cells, k, entity));
            }
        }
        assert forall|k: (i32, i32)| #[trigger] holds(after, k, entity) <==> k == to.key() by {
            if k != to.key() && holds(after, k, entity) {
                assert(holds(between, k, entity));
            }
        }
    }
}

/// Reindexing one entity moves no other: every cell holds the same other
/// entities as before.
pub proof fn reindex_leaves_others(
    cells: Map<(i32, i32), Set<u64>>,
    entity: u64,
    from: QuadCoord,
    to: QuadCoord,
    other: u64,
)
    requires
        other != entity,
    ensures
        forall|k: (i32, i32)|
            holds(QuadStore::reindexed_cells(cells, entity, from, to), k, other) == holds(
                cells,
                k,
                other,
            ),
{
    let after = QuadStore::reindexed_cells(cells, entity, from, to);
    let between = cells_without(cells, from.key(), entity);
    assert forall|k: (i32, i32)| holds(between, k, other) == holds(cells, k, other) by {
        if k == from.key() && cells.contains_key(k) {
            assert(cells[k].remove(entity).contains(other) == cells[k].contains(other));
        }
    }
    assert forall|k: (i32, i32)| holds(after, k, other) == holds(cells, k, other) by {}
}

/// A pass moves no entity that is not among those it reindexes.
pub proof fn pass_leaves_others(
    cells: Map<(i32, i32), Set<u64>>,
    agents: Seq<GridAgent>,
    size: u32,
    other: u64,
)
    requires
        forall|i: int| 0 <= i < agents.len() ==> (#[trigger] agents[i]).entity != other,
    ensures
        forall|k: (i32, i32)|
            holds(pass_cells(cells, agents, size), k, other) == holds(cells, k, other),
    decreases agents.len(),
{
    if agents.len() > 0 {
        let rest = agents.drop_last();
        let agent = agents.last();
        assert forall|i: int| 0 <= i < rest.len() implies (#[trigger] rest[i]).entity != other by {}
        pass_leaves_others(cells, rest, size, other);
        reindex_leaves_others(
            pass_cells(cells, rest, size),
            agent.entity,
            agent.coord,
            QuadCoord::containing(agent.position, size),
            other,
        );
    }
}

/// After a pass over entities with distinct handles, whose stored
/// coordinates agreed with the grid before, exactly one cell holds each of
/// them: the cell that holds its position.
pub proof fn pass_files_every_entity_once(
    cells: Map<(i32, i32), Set<u64>>,
    agents: Seq<GridAgent>,
    size: u32,
)
    requires
        forall|i: int|
            0 <= i < agents.len() ==> recorded(
                cells,
                (#[trigger] agents[i]).entity,
                agents[i].coord,
            ),
        forall|i: int, j: int|
            0 <= i < j < agents.len() ==> (#[trigger] agents[i]).entity != (
            #[trigger] agents[j]).entity,
    ensures
        forall|i: int|
            0 <= i < agents.len() ==> filed_only_under(
                pass_cells(cells, agents, size),
                (#[trigger] agents[i]).entity,
                QuadCoord::containing(agents[i].position, size),
            ),
    decreases agents.len(),
{
    if agents.len() > 0 {
        let rest = agents.drop_last();
        let agent = agents.last();
        let to = QuadCoord::containing(agent.position, size);
        let before = pass_cells(cells, rest, size);
        let after = pass_cells(cells, agents, size);
        assert forall|i: int| 0 <= i < rest.len() implies recorded(
            cells,
            (#[trigger] rest[i]).entity,
            rest[i].coord,
        ) by {}
        assert forall|i: int, j: int| 0 <= i < j < rest.len() implies (#[trigger] rest[i]).entity
            != (#[trigger] rest[j]).entity by {}
        pass_files_every_entity_once(cells, rest, size);
        assert forall|i: int| 0 <= i < rest.len() implies (#[trigger] rest[i]).entity
            != agent.entity by {}
        pass_leaves_others(cells, rest, size, agent.entity);
        assert(recorded(before, agent.entity, agent.coord)) by {
            assert forall|k: (i32, i32)| #[trigger]
                holds(before, k, agent.entity) implies k == agent.coord.key() by {
                assert(holds(cells, k, agent.entity));
            }
        }
        reindex_files_entity_once(before, agent.entity, agent.coord, to);
        assert forall|i: int| 0 <= i < agents.len() implies filed_only_under(
            after,
            (#[trigger] agents[i]).entity,
            QuadCoord::containing(agents[i].position, size),
        ) by {
            if i < rest.len() {
                let there = QuadCoord::containing(agents[i].position, size);
                assert(filed_only_under(before, rest[i].entity, there));
                reindex_leaves_others(before, agent.entity, agent.coord, to, agents[i].entity);
                assert forall|k: (i32, i32)| #[trigger]
                    holds(after, k, agents[i].entity) <==> k == there.key() by {
                    assert(holds(after, k, agents[i].entity) == holds(
                        before,
                        k,
                        agents[i].entity,
                    ));
                }
            }
        }
    }
}

/// An entity that exactly one cell holds is a neighbour of a cell if and
/// only if its own cell lies in the block of three by three cells around
/// that cell.
pub proof fn neighbors_are_the_entities_of_the_block(
    cells: Map<(i32, i32), Set<u64>>,
    around: QuadCoord,
    entity: u64,
    coord: QuadCoord,
)
    requires
        filed_only_under(cells, entity, coord),
    ensures
        QuadStore::block_members(cells, around).contains(entity) <==> around.adjoins(coord.key()),
{
    if around.adjoins(coord.key()) {
        assert(holds(cells, coord.key(), entity));
    }
}

/// Filing an entity under a cell that did not hold it, and taking it out of
/// that cell again, leaves the grid as it was.
pub proof fn insert_then_remove_restores(
    cells: Map<(i32, i32), Set<u64>>,
    k: (i32, i32),
    entity: u64,
)
    requires
        no_empty_cell(cells),
        !holds(cells, k, entity),
    ensures
        cells_without(cells_with(cells, k, entity), k, entity) == cells,
{
    let with = cells_with(cells, k, entity);
    if cells.contains_key(k) {
        assert(with[k].remove(entity) =~= cells[k]);
    } else {
        assert(with[k].remove(entity) =~= Set::<u64>::empty());
    }
}

/// A pass in which no entity has left its cell changes nothing: where each
/// entity is stored under the cell that holds its position, and that is not
/// the coordinate of an entity not indexed yet, the cells and the count of
/// the largest population are after the pass what they were before.
pub proof fn pass_without_moves_changes_nothing(
    cells: Map<(i32, i32), Set<u64>>,
    largest_count: int,
    agents: Seq<GridAgent>,
    size: u32,
)
    requires
        forall|i: int|
            0 <= i < agents.len() ==> (#[trigger] agents[i]).coord == QuadCoord::containing(
                agents[i].position,
                size,
            ) && agents[i].coord != QuadCoord::unassigned(),
    ensures
        pass_cells(cells, agents, size) == cells,
        pass_count(cells, largest_count, agents, size) == largest_count,
    decreases agents.len(),
{
    if agents.len() > 0 {
        let rest = agents.drop_last();
        assert forall|i: int| 0 <= i < rest.len() implies (#[trigger] rest[i]).coord
            == QuadCoord::containing(rest[i].position, size) && rest[i].coord
            != QuadCoord::unassigned() by {
            assert(rest[i] == agents[i]);
        }
        pass_without_moves_changes_nothing(cells, largest_count, rest, size);
        assert(agents.last() == agents[agents.len() - 1]);
    }
}

} // verus!
