//! The store of drops, keyed by identifier.

use vstd::prelude::*;
use crate::record::{Drop, DropView};
use crate::types::{Error, U256};

verus! {

/// The record that a store holds at an identifier: the stored one, or the
/// all-zero record where nothing is stored.
pub open spec fn record_at(drops: Map<U256, DropView>, id: U256) -> DropView {
    if drops.contains_key(id) {
        drops[id]
    } else {
        DropView::zero()
    }
}

/// The store after the drop at `id`, if there is one, has `active` set as
/// given. An identifier that holds nothing stays empty.
pub open spec fn with_active(drops: Map<U256, DropView>, id: U256, active: bool) -> Map<
    U256,
    DropView,
> {
    if drops.contains_key(id) {
        drops.insert(id, drops[id].with_active(active))
    } else {
        drops
    }
}

/// An identifier is taken where its record has a sender other than zero.
pub open spec fn taken(drops: Map<U256, DropView>, id: U256) -> bool {
    !record_at(drops, id).sender.is_zero()
}

/// The store after a record was offered for an identifier: stored where
/// the identifier was free, refused where it was taken.
pub open spec fn after_creation(drops: Map<U256, DropView>, id: U256, drop: DropView) -> Map<
    U256,
    DropView,
> {
    if taken(drops, id) {
        drops
    } else {
        drops.insert(id, drop)
    }
}

struct Entry {
    id: U256,
    drop: Drop,
}

/// Drops by identifier. No identifier is stored twice.
pub struct DropRegistry {
    entries: Vec<Entry>,
}

impl View for DropRegistry {
    type V = Map<U256, DropView>;

    closed spec fn view(&self) -> Map<U256, DropView> {
        Map::new(
            |id: U256| exists|i: int| self.holds_at(i, id),
            |id: U256| self.entries@[choose|i: int| self.holds_at(i, id)].drop@,
        )
    }
}

impl DropRegistry {
    #[verifier::type_invariant]
    spec fn distinct_ids(self) -> bool {
        forall|i: int, j: int|
            0 <= i < j < self.entries@.len() ==> self.entries@[i].id != self.entries@[j].id
    }

    spec fn holds_at(self, i: int, id: U256) -> bool {
        0 <= i < self.entries@.len() && self.entries@[i].id == id
    }

    /// The record at an identifier, zero where nothing is stored.
    pub open spec fn record(&self, id: U256) -> DropView {
        record_at(self@, id)
    }

    proof fn lemma_entry(self, i: int)
        requires
            self.distinct_ids(),
            0 <= i < self.entries@.len(),
        ensures
            self@.contains_key(self.entries@[i].id),
            self@[self.entries@[i].id] == self.entries@[i].drop@,
    {
        let id = self.entries@[i].id;
        assert(self.holds_at(i, id));
        let j = choose|j: int| self.holds_at(j, id);
        assert(j == i);
    }

    proof fn lemma_absent(self, id: U256)
        requires
            forall|i: int| 0 <= i < self.entries@.len() ==> self.entries@[i].id != id,
        ensures
            !self@.contains_key(id),
    {
        assert forall|i: int| !self.holds_at(i, id) by {}
    }

    /// A store that holds nothing.
    pub fn new() -> (registry: DropRegistry)
        ensures
            registry@ == Map::<U256, DropView>::empty(),
    {
        let registry = DropRegistry { entries: Vec::new() };
        proof {
            assert forall|id: U256| !registry@.contains_key(id) by {
                registry.lemma_absent(id);
            }
            assert(registry@ =~= Map::<U256, DropView>::empty());
        }
        registry
    }

    fn position(&self, id: &U256) -> (found: Option<usize>)
        ensures
            match found {
                Some(i) => self.holds_at(i as int, *id),
                None => !self@.contains_key(*id),
            },
    {
        let mut i: usize = 0;
        while i < self.entries.len()
            invariant
                i <= self.entries@.len(),
                forall|j: int| 0 <= j < i ==> self.entries@[j].id != *id,
            decreases self.entries@.len() - i,
        {
            if self.entries[i].id == *id {
                return Some(i);
            }
            i += 1;
        }
        proof {
            self.lemma_absent(*id);
        }
        None
    }

    /// Reads the record at an identifier. Where nothing is stored the
    /// all-zero record comes back.
    pub fn get(&self, id: &U256) -> (drop: Drop)
        ensures
            drop@ == self.record(*id),
    {
        match self.position(id) {
            Some(i) => {
                proof {
                    use_type_invariant(self);
                    self.lemma_entry(i as int);
                }
                self.entries[i].drop.clone()
            },
            None => Drop::zero(),
        }
    }

    fn put(&mut self, id: U256, drop: Drop)
        ensures
            final(self)@ == old(self)@.insert(id, drop@),
    {
        proof {
            use_type_invariant(&*self);
        }
        let ghost before = *self;
        let found = self.position(&id);
        let mut entries: Vec<Entry> = Vec::new();
        core::mem::swap(&mut self.entries, &mut entries);
        match found {
            Some(i) => {
                entries.set(i, Entry { id, drop });
            },
            None => {
                entries.push(Entry { id, drop });
            },
        }
        proof {
            assert forall|a: int, b: int| 0 <= a < b < entries@.len() implies entries@[a].id
                != entries@[b].id by {
                if found is None && b == before.entries@.len() {
                    assert(!before.holds_at(a, id));
                }
            }
        }
        self.entries = entries;
        proof {
            let after = *self;
            let at = match found {
                Some(i) => i as int,
                None => before.entries@.len() as int,
            };
            assert(after.holds_at(at, id));
            assert forall|k: U256| after@.contains_key(k) == before@.insert(
                id,
                drop@,
            ).contains_key(k) by {
                if before@.contains_key(k) && k != id {
                    let j = choose|j: int| before.holds_at(j, k);
                    assert(after.holds_at(j, k));
                }
                if after@.contains_key(k) && k != id {
                    let j = choose|j: int| after.holds_at(j, k);
                    assert(before.holds_at(j, k));
                }
            }
            assert forall|k: U256| after@.contains_key(k) implies after@[k] == before@.insert(
                id,
                drop@,
            )[k] by {
                let j = choose|j: int| after.holds_at(j, k);
                after.lemma_entry(j);
                if j != at {
                    before.lemma_entry(j);
                }
            }
            assert(after@ =~= before@.insert(id, drop@));
        }
    }

    /// Stores a new drop. An identifier whose record has a sender other
    /// than zero is taken: the store stays as it was.
    pub fn create(&mut self, id: U256, drop: Drop) -> (r: Result<(), Error>)
        ensures
            r == if taken(old(self)@, id) {
                Err::<(), Error>(Error::DropExists)
            } else {
                Ok(())
            },
            final(self)@ == after_creation(old(self)@, id, drop@),
    {
        let current = self.get(&id);
        if !current.sender.is_zero() {
            return Err(Error::DropExists);
        }
        self.put(id, drop);
        Ok(())
    }

    /// A store that holds one record, as it was read from elsewhere.
    pub fn holding(id: U256, drop: Drop) -> (registry: DropRegistry)
        ensures
            registry@ == Map::<U256, DropView>::empty().insert(id, drop@),
    {
        let mut registry = DropRegistry::new();
        registry.put(id, drop);
        registry
    }

    /// Sets the `active` flag of the drop at an identifier. Nothing
    /// changes where the identifier holds no drop.
    pub(crate) fn set_active(&mut self, id: &U256, active: bool)
        ensures
            final(self)@ == with_active(old(self)@, *id, active),
    {
        match self.position(id) {
            Some(i) => {
                proof {
                    use_type_invariant(&*self);
                    self.lemma_entry(i as int);
                }
                let mut drop = self.entries[i].drop.clone();
                drop.active = active;
                self.put(*id, drop);
            },
            None => {},
        }
    }

    /// Marks the drop at an identifier as no longer claimable. Nothing
    /// changes where it already is, or where the identifier holds no drop.
    pub fn set_inactive(&mut self, id: &U256)
        ensures
            final(self)@ == with_active(old(self)@, *id, false),
    {
        self.set_active(id, false)
    }
}

} // verus!
