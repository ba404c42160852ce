use std::collections::HashMap;
use vstd::prelude::*;

verus! {

broadcast use vstd::std_specs::hash::group_hash_axioms;

/// Pending continuations keyed by correlation id. Ids come from a counter
/// that only grows, so an id is handed out once for the table's lifetime;
/// completing an id removes its entry, so a continuation is handed back at
/// most once.
pub struct CallbackTable<C> {
    next_id: u64,
    pending: HashMap<u64, C>,
}

impl<C> CallbackTable<C> {
    /// The id that the next registration will receive.
    pub closed spec fn next_id(&self) -> u64 {
        self.next_id
    }

    /// The pending continuations by correlation id.
    pub closed spec fn entries(&self) -> Map<u64, C> {
        self.pending@
    }

    /// Every pending id was handed out already: ids start at 1 and stay
    /// below the counter.
    pub open spec fn wf(&self) -> bool {
        &&& 1 <= self.next_id()
        &&& forall|id: u64| #[trigger] self.entries().contains_key(id) ==> 1 <= id < self.next_id()
    }

    /// An empty table whose first id is 1.
    pub fn new() -> (t: CallbackTable<C>)
        ensures
            t.wf(),
            t.next_id() == 1,
            t.entries() == Map::<u64, C>::empty(),
    {
        CallbackTable { next_id: 1, pending: HashMap::new() }
    }

    /// Stores `continuation` under a fresh id and returns the id. Once the id
    /// space is used up, hands the continuation back and keeps the table as
    /// it is.
    pub fn register(&mut self, continuation: C) -> (r: Result<u64, C>)
        requires
            old(self).wf(),
        ensures
            final(self).wf(),
            old(self).next_id() < u64::MAX ==> {
                &&& r == Ok::<u64, C>(old(self).next_id())
                &&& !old(self).entries().contains_key(old(self).next_id())
                &&& final(self).next_id() == old(self).next_id() + 1
                &&& final(self).entries() == old(self).entries().insert(
                    old(self).next_id(),
                    continuation,
                )
            },
            old(self).next_id() == u64::MAX ==> {
                &&& r == Err::<u64, C>(continuation)
                &&& final(self).next_id() == old(self).next_id()
                &&& final(self).entries() == old(self).entries()
            },
    {
        if self.next_id == u64::MAX {
            return Err(continuation);
        }
        let id = self.next_id;
        self.pending.insert(id, continuation);
        self.next_id = id + 1;
        proof {
            assert forall|k: u64| #[trigger] self.entries().contains_key(k) implies 1 <= k
                < self.next_id() by {
                if k != id {
                    assert(old(self).entries().contains_key(k));
                }
            }
        }
        Ok(id)
    }

    /// Removes the entry of `id` and hands back its continuation for the
    /// caller to run. An id that is not pending (never registered, or
    /// completed already) gives `None` and changes nothing.
    pub fn complete(&mut self, id: u64) -> (r: Option<C>)
        requires
            old(self).wf(),
        ensures
            final(self).wf(),
            final(self).next_id() == old(self).next_id(),
            final(self).entries() == old(self).entries().remove(id),
            old(self).entries().contains_key(id) ==> r == Some(old(self).entries()[id]),
            !old(self).entries().contains_key(id) ==> r is None,
    {
        let r = self.pending.remove(&id);
        proof {
            assert(self.pending@ =~= old(self).pending@.remove(id));
            assert forall|k: u64| #[trigger] self.entries().contains_key(k) implies 1 <= k
                < self.next_id() by {
                assert(old(self).entries().contains_key(k));
            }
        }
        r
    }

    /// Whether a continuation is pending under `id`.
    pub fn is_pending(&self, id: u64) -> (r: bool)
        ensures
            r == self.entries().contains_key(id),
    {
        self.pending.contains_key(&id)
    }

    /// How many continuations are pending.
    pub fn pending_count(&self) -> (r: usize)
        ensures
            r == self.entries().len(),
    {
        self.pending.len()
    }
}

/// A correlation id is completed at most once: once completed it is no longer
/// pending, completing it again hands back nothing and leaves the table as it
/// was, and completing one id leaves every other pending entry in place.
pub proof fn lemma_complete_at_most_once<C>(t: CallbackTable<C>, id: u64, other: u64)
    requires
        t.wf(),
        other != id,
    ensures
        !t.entries().remove(id).contains_key(id),
        t.entries().remove(id).remove(id) == t.entries().remove(id),
        t.entries().contains_key(other) ==> t.entries().remove(id).contains_key(other)
            && t.entries().remove(id)[other] == t.entries()[other],
{
    assert(t.entries().remove(id).remove(id) =~= t.entries().remove(id));
}

/// Registration never reuses an id: the id handed out is not pending, and
/// every id still pending afterwards, other than the new one, is below it.
pub proof fn lemma_register_fresh<C>(t: CallbackTable<C>, c: C)
    requires
        t.wf(),
        t.next_id() < u64::MAX,
    ensures
        !t.entries().contains_key(t.next_id()),
        forall|id: u64| #[trigger]
            t.entries().insert(t.next_id(), c).contains_key(id) && id != t.next_id() ==> id
                < t.next_id(),
{
}

} // verus!
