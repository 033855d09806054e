//! The in-memory record store: fetched records keyed by identifier.
//!
//! The fetch-queue worker is the sole writer; the display layer only reads.
//! Records accumulate for the life of the process; an insert for a key
//! already present replaces the record wholesale.

use vstd::prelude::*;
use std::collections::HashMap;

use crate::item::{Item, ItemId};

verus! {

broadcast use vstd::std_specs::hash::group_hash_axioms;

/// Mapping from record identifier to the fetched record.
pub struct RecordStore {
    map: HashMap<ItemId, Item>,
}

impl View for RecordStore {
    type V = Map<ItemId, Item>;

    closed spec fn view(&self) -> Map<ItemId, Item> {
        self.map@
    }
}

impl RecordStore {
    /// An empty store.
    pub fn new() -> (s: RecordStore)
        ensures
            s@ == Map::<ItemId, Item>::empty(),
    {
        RecordStore { map: HashMap::new() }
    }

    /// Insert a record, replacing any record already stored under `id`.
    pub fn insert(&mut self, id: ItemId, item: Item)
        ensures
            final(self)@ == old(self)@.insert(id, item),
    {
        self.map.insert(id, item);
    }

    /// Whether a record is stored under `id`.
    pub fn contains(&self, id: ItemId) -> (r: bool)
        ensures
            r == self@.contains_key(id),
    {
        self.map.contains_key(&id)
    }

    /// The record stored under `id`, if any.
    pub fn get(&self, id: ItemId) -> (r: Option<&Item>)
        ensures
            match r {
                Some(item) => self@.contains_key(id) && *item == self@[id],
                None => !self@.contains_key(id),
            },
    {
        self.map.get(&id)
    }

    /// How many records are stored.
    pub fn len(&self) -> (n: usize)
        ensures
            n == self@.len(),
    {
        self.map.len()
    }
}

} // verus!
