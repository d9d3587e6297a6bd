//! The single-owner store: one map from identifiers to string payloads,
//! together with the last identifier handed out. Identifiers are assigned by
//! the store itself, counting up from 1, and are never reused, even after a
//! deletion.

use std::collections::HashMap;
use vstd::prelude::*;

verus! {

broadcast use vstd::std_specs::hash::group_hash_axioms;

/// An identifier-keyed store of string payloads. The payloads are opaque to
/// the store: it never inspects them.
pub struct InMemoryDB {
    db: HashMap<usize, String>,
    last_index: usize,
}

impl InMemoryDB {
    /// The abstract table held by the store: identifier to payload characters.
    pub closed spec fn table(&self) -> Map<usize, Seq<char>> {
        self.db@.map_values(|s: String| s@)
    }

    /// The last identifier assigned so far; 0 before the first `create`.
    pub closed spec fn last_id(&self) -> usize {
        self.last_index
    }

    /// Every identifier in the table was assigned by a prior `create`, so it
    /// is at least 1 and at most `last_id`. The counter never runs backwards,
    /// so a deleted identifier can never be assigned a second time.
    pub open spec fn wf(&self) -> bool {
        forall|k: usize| #[trigger] self.table().contains_key(k) ==> 1 <= k <= self.last_id()
    }

    /// A fresh store: no entries, no identifier assigned yet.
    pub fn new() -> (r: InMemoryDB)
        ensures
            r.wf(),
            r.last_id() == 0,
            r.table() == Map::<usize, Seq<char>>::empty(),
    {
        let r = InMemoryDB { db: HashMap::new(), last_index: 0 };
        proof {
            assert(r.table() =~= Map::<usize, Seq<char>>::empty());
        }
        r
    }

    /// The last identifier assigned so far, as a run-time value.
    pub fn last_index(&self) -> (r: usize)
        ensures
            r == self.last_id(),
    {
        self.last_index
    }

    /// Files the payload under the next identifier and returns that
    /// identifier: one more than the last one assigned. The counter and the
    /// table move together, in this one call.
    pub fn create(&mut self, entry: &str) -> (id: usize)
        requires
            old(self).wf(),
            old(self).last_id() < usize::MAX,
        ensures
            final(self).wf(),
            id == old(self).last_id() + 1,
            final(self).last_id() == id,
            final(self).table() == old(self).table().insert(id, entry@),
    {
        let id = self.last_index + 1;
        self.db.insert(id, entry.to_owned());
        self.last_index = id;
        proof {
            assert(self.table() =~= old(self).table().insert(id, entry@));
        }
        id
    }

    /// Looks the identifier up and hands the payload back by value; `None`
    /// exactly when the identifier has no entry (never created, or deleted).
    pub fn read(&self, id: usize) -> (r: Option<String>)
        ensures
            match r {
                Some(s) => self.table().contains_key(id) && s@ == self.table()[id],
                None => !self.table().contains_key(id),
            },
    {
        match self.db.get(&id) {
            Some(s) => Some(s.clone()),
            None => None,
        }
    }

    /// Replaces the payload under the identifier, if there is one; an absent
    /// identifier leaves the store untouched. Returns whether the target
    /// existed, so a caller can tell the no-op apart from a replacement.
    pub fn update(&mut self, id: usize, entry: &str) -> (hit: bool)
        requires
            old(self).wf(),
        ensures
            final(self).wf(),
            final(self).last_id() == old(self).last_id(),
            hit == old(self).table().contains_key(id),
            hit ==> final(self).table() == old(self).table().insert(id, entry@),
            !hit ==> final(self).table() == old(self).table(),
    {
        if self.db.contains_key(&id) {
            self.db.insert(id, entry.to_owned());
            proof {
                assert(self.table() =~= old(self).table().insert(id, entry@));
                assert forall|k: usize| self.table().contains_key(k) implies 1 <= k
                    <= self.last_id() by {
                    if k == id {
                        assert(old(self).db@.contains_key(id));
                        assert(old(self).table().contains_key(id));
                    } else {
                        assert(old(self).table().contains_key(k));
                    }
                }
            }
            true
        } else {
            false
        }
    }

    /// Removes the identifier's entry, if there is one; removing an absent
    /// identifier is a no-op. The counter is not touched: the identifier is
    /// retired, not recycled. Returns whether the target existed.
    pub fn delete(&mut self, id: usize) -> (hit: bool)
        requires
            old(self).wf(),
        ensures
            final(self).wf(),
            final(self).last_id() == old(self).last_id(),
            hit == old(self).table().contains_key(id),
            final(self).table() == old(self).table().remove(id),
    {
        let gone = self.db.remove(&id);
        proof {
            assert(self.table() =~= old(self).table().remove(id));
        }
        gone.is_some()
    }
}

} // verus!
