//! The hashed collections behind the grid: `bevy::utils::HashSet` and
//! `bevy::utils::HashMap`, each held in a struct whose inside Verus does not
//! read. Every function in this file is believed, not proved: its contract
//! restates what the collection's documentation says of the method it calls.

use bevy::utils::{HashMap, HashSet};
use vstd::prelude::*;

verus! {

/// A set of entity handles, stored in a `bevy::utils::HashSet<u64>`.
#[verifier::external_body]
pub struct EntitySet {
    inner: HashSet<u64>,
}

/// The handles that an [`EntitySet`] holds.
pub uninterp spec fn entity_set_members(s: EntitySet) -> Set<u64>;

/// The cells of a grid, stored in a `bevy::utils::HashMap` from a coordinate
/// pair to the set of handles in that cell.
#[verifier::external_body]
pub struct CellMap {
    inner: HashMap<(i32, i32), EntitySet>,
}

/// The cells that a [`CellMap`] holds, each with the handles in it.
pub uninterp spec fn cell_map_cells(m: CellMap) -> Map<(i32, i32), Set<u64>>;

/// The grid without any cell.
pub open spec fn no_cells() -> Map<(i32, i32), Set<u64>> {
    Map::empty()
}

impl EntitySet {
    /// `HashSet::default`: a set that holds nothing.
    #[verifier::external_body]
    pub(crate) fn new() -> (s: EntitySet)
        ensures
            entity_set_members(s) == Set::<u64>::empty(),
    {
        EntitySet { inner: HashSet::default() }
    }

    /// `HashSet::insert`: the handle is in the set afterwards, nothing else
    /// changes, and the result tells whether it was absent before.
    #[verifier::external_body]
    pub(crate) fn insert(&mut self, entity: u64) -> (fresh: bool)
        ensures
            entity_set_members(*final(self)) == entity_set_members(*old(self)).insert(entity),
            fresh == !entity_set_members(*old(self)).contains(entity),
    {
        self.inner.insert(entity)
    }

    /// `HashSet::remove`: the handle is not in the set afterwards, nothing
    /// else changes, and the result tells whether it was present before.
    #[verifier::external_body]
    pub(crate) fn remove(&mut self, entity: u64) -> (present: bool)
        ensures
            entity_set_members(*final(self)) == entity_set_members(*old(self)).remove(entity),
            present == entity_set_members(*old(self)).contains(entity),
    {
        self.inner.remove(&entity)
    }

    /// `HashSet::contains`: whether the handle is in the set.
    #[verifier::external_body]
    pub(crate) fn contains(&self, entity: u64) -> (present: bool)
        ensures
            present == entity_set_members(*self).contains(entity),
    {
        self.inner.contains(&entity)
    }

    /// `HashSet::len`: the number of handles in the set.
    #[verifier::external_body]
    pub(crate) fn len(&self) -> (n: usize)
        ensures
            n == entity_set_members(*self).len(),
    {
        self.inner.len()
    }

    /// `HashSet::is_empty`: whether the set holds nothing.
    #[verifier::external_body]
    pub(crate) fn is_empty(&self) -> (b: bool)
        ensures
            b == (entity_set_members(*self) == Set::<u64>::empty()),
    {
        self.inner.is_empty()
    }

    /// `HashSet::iter`, collected: every handle of the set once, in an order
    /// that is not stated.
    #[verifier::external_body]
    pub(crate) fn to_vec(&self) -> (v: Vec<u64>)
        ensures
            v@.no_duplicates(),
            v@.to_set() == entity_set_members(*self),
    {
        self.inner.iter().copied().collect()
    }
}

impl CellMap {
    /// `HashMap::default`: a map that holds no cell.
    #[verifier::external_body]
    pub(crate) fn new() -> (m: CellMap)
        ensures
            cell_map_cells(m) == no_cells(),
    {
        CellMap { inner: HashMap::default() }
    }

    /// `HashMap::len`: the number of cells in the map.
    #[verifier::external_body]
    pub(crate) fn len(&self) -> (n: usize)
        ensures
            n == cell_map_cells(*self).dom().len(),
    {
        self.inner.len()
    }

    /// `HashMap::get`: the set stored for the cell, if the map holds the cell.
    #[verifier::external_body]
    pub(crate) fn get(&self, x: i32, y: i32) -> (found: Option<&EntitySet>)
        ensures
            found.is_some() == cell_map_cells(*self).contains_key((x, y)),
            found.is_some() ==> entity_set_members(*found.unwrap()) == cell_map_cells(*self)[(x, y)],
    {
        self.inner.get(&(x, y))
    }

    /// `HashMap::remove`: the cell leaves the map and its set is handed out,
    /// if the map held the cell; the other cells stay.
    #[verifier::external_body]
    pub(crate) fn take(&mut self, x: i32, y: i32) -> (taken: Option<EntitySet>)
        ensures
            cell_map_cells(*final(self)) == cell_map_cells(*old(self)).remove((x, y)),
            taken.is_some() == cell_map_cells(*old(self)).contains_key((x, y)),
            taken.is_some() ==> entity_set_members(taken.unwrap()) == cell_map_cells(*old(self))[(x, y)],
    {
        self.inner.remove(&(x, y))
    }

    /// `HashMap::insert`: the cell holds the given set afterwards; the other
    /// cells stay.
    #[verifier::external_body]
    pub(crate) fn put(&mut self, x: i32, y: i32, set: EntitySet)
        ensures
            cell_map_cells(*final(self)) == cell_map_cells(*old(self)).insert(
                (x, y),
                entity_set_members(set),
            ),
    {
        self.inner.insert((x, y), set);
    }

    /// `HashMap::clear`: no cell is left.
    #[verifier::external_body]
    pub(crate) fn clear(&mut self)
        ensures
            cell_map_cells(*final(self)) == no_cells(),
    {
        self.inner.clear()
    }
}

} // verus!
