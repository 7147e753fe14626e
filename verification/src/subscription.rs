//! Per-key lifecycle of property-watch tasks.
//!
//! Each tracked key moves through `Unwatched -> Watching -> Cancelled`, where
//! "unwatched" is the absence of an entry. Establishing a watch is
//! idempotent — a key already watching, or already cancelled by a removal
//! that raced ahead, stays as it is — so duplicate add events never spawn a
//! second task, and a watch is never re-created for a removed key.

use vstd::prelude::*;
use vstd::pervasive::VecAdditionalExecFns;

use crate::assoc::assoc_map;
use crate::assoc::distinct_keys;
use crate::assoc::lemma_assoc_contains;
use crate::assoc::lemma_assoc_index;
use crate::assoc::lemma_assoc_push;
use crate::assoc::lemma_assoc_update;

verus! {

/// The lifecycle state of one tracked key.
#[derive(Clone, Copy, Debug, PartialEq, Eq, Structural)]
pub enum WatchState {
    /// A watch task is (to be) running for the key.
    Watching,
    /// The key's watch was torn down; it must not be re-established.
    Cancelled,
}

/// Tracks, per key, whether a property-watch task is running or cancelled;
/// a key with no entry has never been watched.
pub struct SubscriptionManager {
    entries: Vec<(String, WatchState)>,
}

impl SubscriptionManager {
    /// The tracked entries, in storage order.
    pub closed spec fn entries_view(&self) -> Seq<(Seq<char>, WatchState)> {
        Seq::new(self.entries@.len(), |i: int| (self.entries@[i].0@, self.entries@[i].1))
    }

    /// Keys are pairwise distinct: at most one watch entry per key.
    pub open spec fn wf(&self) -> bool {
        distinct_keys(self.entries_view())
    }

    /// A manager tracking nothing.
    pub fn new() -> (r: SubscriptionManager)
        ensures
            r.wf(),
            r@ == Map::<Seq<char>, WatchState>::empty(),
    {
        let r = SubscriptionManager { entries: Vec::new() };
        proof {
            assert(r.entries_view() =~= Seq::<(Seq<char>, WatchState)>::empty());
            assert(r@ =~= Map::<Seq<char>, WatchState>::empty());
        }
        r
    }

    /// The index of the entry for `key`, if any.
    fn find_index(&self, key: &String) -> (r: Option<usize>)
        ensures
            match r {
                Some(i) => i < self.entries_view().len() && self.entries_view()[i as int].0
                    == key@,
                None => forall|j: int|
                    0 <= j < self.entries_view().len() ==> self.entries_view()[j].0 != key@,
            },
    {
        let mut i: usize = 0;
        while i < self.entries.len()
            invariant
                i <= self.entries.len(),
                forall|j: int| 0 <= j < i ==> self.entries_view()[j].0 != key@,
            decreases self.entries.len() - i,
        {
            if self.entries[i].0 == *key {
                return Some(i);
            }
            i = i + 1;
        }
        None
    }

    /// Establishes a watch for `key` on its first add event; a key already
    /// watching or already cancelled stays as it is. Returns whether a new
    /// watch task must be started.
    pub fn establish(&mut self, key: &String) -> (started: bool)
        requires
            old(self).wf(),
        ensures
            final(self).wf(),
            started == !old(self)@.contains_key(key@),
            !old(self)@.contains_key(key@) ==> final(self)@ == old(self)@.insert(
                key@,
                WatchState::Watching,
            ),
            old(self)@.contains_key(key@) ==> final(self)@ == old(self)@,
    {
        let ghost s = self.entries_view();
        match self.find_index(key) {
            Some(i) => {
                proof {
                    lemma_assoc_contains(s, key@);
                }
                false
            },
            None => {
                proof {
                    lemma_assoc_contains(s, key@);
                }
                self.entries.push((key.clone(), WatchState::Watching));
                proof {
                    assert(self.entries_view() =~= s.push((key@, WatchState::Watching)));
                    lemma_assoc_push(s, key@, WatchState::Watching);
                    assert(distinct_keys(self.entries_view()));
                }
                true
            },
        }
    }

    /// Cancels the watch for `key` on its remove event, also when the remove
    /// races ahead of watch establishment: the key is marked cancelled even
    /// if it was never watched. Returns whether a running watch task must be
    /// torn down.
    pub fn cancel(&mut self, key: &String) -> (was_watching: bool)
        requires
            old(self).wf(),
        ensures
            final(self).wf(),
            final(self)@ == old(self)@.insert(key@, WatchState::Cancelled),
            was_watching == (old(self)@.contains_key(key@) && old(self)@[key@]
                == WatchState::Watching),
    {
        let ghost s = self.entries_view();
        match self.find_index(key) {
            Some(i) => {
                proof {
                    lemma_assoc_index(s, i as int);
                }
                let was_watching = match self.entries[i].1 {
                    WatchState::Watching => true,
                    WatchState::Cancelled => false,
                };
                self.entries.set(i, (key.clone(), WatchState::Cancelled));
                proof {
                    assert(self.entries_view() =~= s.update(
                        i as int,
                        (s[i as int].0, WatchState::Cancelled),
                    ));
                    lemma_assoc_update(s, i as int, WatchState::Cancelled);
                    assert(distinct_keys(self.entries_view()));
                }
                was_watching
            },
            None => {
                proof {
                    lemma_assoc_contains(s, key@);
                }
                self.entries.push((key.clone(), WatchState::Cancelled));
                proof {
                    assert(self.entries_view() =~= s.push((key@, WatchState::Cancelled)));
                    lemma_assoc_push(s, key@, WatchState::Cancelled);
                    assert(distinct_keys(self.entries_view()));
                }
                false
            },
        }
    }

    /// The tracked state of `key`: `None` when the key has never been
    /// watched.
    pub fn state(&self, key: &String) -> (r: Option<WatchState>)
        requires
            self.wf(),
        ensures
            self@.contains_key(key@) ==> r == Some(self@[key@]),
            !self@.contains_key(key@) ==> r is None,
    {
        let ghost s = self.entries_view();
        match self.find_index(key) {
            Some(i) => {
                proof {
                    lemma_assoc_index(s, i as int);
                }
                Some(self.entries[i].1)
            },
            None => {
                proof {
                    lemma_assoc_contains(s, key@);
                }
                None
            },
        }
    }
}

impl View for SubscriptionManager {
    type V = Map<Seq<char>, WatchState>;

    /// The manager as a map from key to watch state.
    open spec fn view(&self) -> Map<Seq<char>, WatchState> {
        assoc_map(self.entries_view())
    }
}

} // verus!
