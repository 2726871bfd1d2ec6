//! The history store: a bounded, ordered, most-recent-first collection of
//! clipboard entries.
//!
//! New content is pushed to the front; once the store holds
//! `HISTORY_CAPACITY` entries, every further push evicts the oldest entry at
//! the back. Entries are addressed by position; removal at an out-of-range
//! position is a no-op.

use vstd::math::min;
use vstd::prelude::*;
use crate::content::ClipboardContent;
use crate::content::ClipboardEntry;
use crate::content::ContentView;

verus! {

/// Maximum number of entries the history retains.
pub const HISTORY_CAPACITY: usize = 50;

/// What one push does to the stored sequence: the new content goes to the
/// front, and if the store was full the oldest (back) entry leaves.
pub open spec fn push_front_spec(s: Seq<ContentView>, c: ContentView) -> Seq<ContentView> {
    if s.len() < HISTORY_CAPACITY {
        seq![c] + s
    } else {
        seq![c] + s.drop_last()
    }
}

/// The store contents after pushing `items` one by one, in order, into an
/// empty store.
pub open spec fn store_after_pushes(items: Seq<ContentView>) -> Seq<ContentView>
    decreases items.len(),
{
    if items.len() == 0 {
        Seq::empty()
    } else {
        push_front_spec(store_after_pushes(items.drop_last()), items.last())
    }
}

/// The history is bounded: after any sequence of pushes into an empty store,
/// the store holds the most recent `HISTORY_CAPACITY` items pushed, in
/// reverse order of pushing, and nothing else.
pub proof fn lemma_bounded_history(items: Seq<ContentView>)
    ensures
        store_after_pushes(items).len() == min(items.len() as int, HISTORY_CAPACITY as int),
        forall|i: int|
            0 <= i < store_after_pushes(items).len() ==> store_after_pushes(items)[i]
                == items[items.len() - 1 - i],
    decreases items.len(),
{
    if items.len() > 0 {
        lemma_bounded_history(items.drop_last());
        let prev = store_after_pushes(items.drop_last());
        let cur = store_after_pushes(items);
        assert forall|i: int| 0 <= i < cur.len() implies cur[i] == items[items.len() - 1
            - i] by {
            if i > 0 {
                assert(prev[i - 1] == items.drop_last()[items.len() - 1 - i]);
            }
        }
    }
}

/// Bounded, most-recent-first history of clipboard entries.
#[derive(Debug)]
pub struct HistoryStore {
    entries: Vec<ClipboardEntry>,
}

impl View for HistoryStore {
    type V = Seq<ContentView>;

    closed spec fn view(&self) -> Seq<ContentView> {
        self.entries@.map(|i: int, e: ClipboardEntry| e@)
    }
}

impl HistoryStore {
    /// The store never holds more than `HISTORY_CAPACITY` entries, all of
    /// them well formed.
    pub open spec fn well_formed(&self) -> bool {
        &&& self@.len() <= HISTORY_CAPACITY
        &&& forall|i: int| 0 <= i < self@.len() ==> self@[i].well_formed()
    }

    /// An empty store.
    pub fn new() -> (r: Self)
        ensures
            r@ == Seq::<ContentView>::empty(),
            r.well_formed(),
    {
        let r = HistoryStore { entries: Vec::new() };
        proof {
            assert(r@ =~= Seq::<ContentView>::empty());
        }
        r
    }

    /// How many entries the store currently holds.
    pub fn len(&self) -> (n: usize)
        ensures
            n == self@.len(),
    {
        self.entries.len()
    }

    /// Insert `content` as the newest entry; if the store was full, the
    /// oldest entry is evicted, so the store never exceeds its capacity.
    pub fn push_front(&mut self, content: ClipboardContent)
        requires
            old(self).well_formed(),
            content@.well_formed(),
        ensures
            final(self)@ == push_front_spec(old(self)@, content@),
            final(self)@.len() == min(old(self)@.len() as int + 1, HISTORY_CAPACITY as int),
            final(self).well_formed(),
    {
        let entry = ClipboardEntry::init_model(content);
        self.entries.insert(0, entry);
        if self.entries.len() > HISTORY_CAPACITY {
            self.entries.pop();
            proof {
                assert(self@ =~= seq![entry@] + old(self)@.drop_last());
            }
        } else {
            proof {
                assert(self@ =~= seq![entry@] + old(self)@);
            }
        }
    }

    /// Remove the entry at `position`. An out-of-range position leaves the
    /// store unchanged: no panic, no other entry moves.
    pub fn remove_at(&mut self, position: usize)
        requires
            old(self).well_formed(),
        ensures
            position < old(self)@.len() ==> final(self)@ == old(self)@.remove(position as int),
            position >= old(self)@.len() ==> final(self)@ == old(self)@,
            final(self).well_formed(),
    {
        if position < self.entries.len() {
            self.entries.remove(position);
            proof {
                assert(self@ =~= old(self)@.remove(position as int));
            }
        }
    }

    /// Read-only lookup by position; absent when out of range.
    pub fn get_at(&self, position: usize) -> (r: Option<&ClipboardEntry>)
        ensures
            position < self@.len() ==> (r matches Some(e) && e@ == self@[position as int]),
            position >= self@.len() ==> r is None,
    {
        if position < self.entries.len() {
            Some(&self.entries[position])
        } else {
            None
        }
    }
}

} // verus!
