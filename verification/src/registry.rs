//! The keyed store of device records.
//!
//! The registry owns all record storage: there is at most one record per key,
//! records enter it whole (upsert) or through a field-wise merge, and a merge
//! or removal for an unknown key is a no-op that never synthesizes a record.
//! Every operation takes the store exclusively, so a reader never observes a
//! record with fields from two different writes.

use vstd::prelude::*;
use vstd::pervasive::VecAdditionalExecFns;

use crate::assoc::assoc_map;
use crate::assoc::distinct_keys;
use crate::assoc::lemma_assoc_contains;
use crate::assoc::lemma_assoc_index;
use crate::assoc::lemma_assoc_push;
use crate::assoc::lemma_assoc_remove;
use crate::assoc::lemma_assoc_update;
use crate::record::DeviceInfo;
use crate::record::DeviceInfoView;
use crate::record::spec_merge;
use crate::record::DeviceDiff;

verus! {

/// A keyed store of [`DeviceInfo`], at most one record per key.
pub struct Registry {
    entries: Vec<(String, DeviceInfo)>,
}

impl Registry {
    /// The stored entries, in storage order.
    pub closed spec fn entries_view(&self) -> Seq<(Seq<char>, DeviceInfoView)> {
        Seq::new(self.entries@.len(), |i: int| (self.entries@[i].0@, self.entries@[i].1@))
    }

    /// Keys are pairwise distinct: at most one record per key.
    pub open spec fn wf(&self) -> bool {
        distinct_keys(self.entries_view())
    }

    /// An empty registry.
    pub fn new() -> (r: Registry)
        ensures
            r.wf(),
            r@ == Map::<Seq<char>, DeviceInfoView>::empty(),
    {
        let r = Registry { entries: Vec::new() };
        proof {
            assert(r.entries_view() =~= Seq::<(Seq<char>, DeviceInfoView)>::empty());
            assert(r@ =~= Map::<Seq<char>, DeviceInfoView>::empty());
        }
        r
    }

    /// The index of the entry holding `key`, if any.
    fn find_index(&self, key: &String) -> (r: Option<usize>)
        ensures
            match r {
                Some(i) => i < self.entries_view().len() && self.entries_view()[i as int].0
                    == key@,
                None => forall|j: int|
                    0 <= j < self.entries_view().len() ==> self.entries_view()[j].0 != key@,
            },
    {
        let mut i: usize = 0;
        while i < self.entries.len()
            invariant
                i <= self.entries.len(),
                forall|j: int| 0 <= j < i ==> self.entries_view()[j].0 != key@,
            decreases self.entries.len() - i,
        {
            if self.entries[i].0 == *key {
                return Some(i);
            }
            i = i + 1;
        }
        None
    }

    /// Inserts or fully replaces the record for `key`; always succeeds and
    /// returns the previous record if one was present.
    pub fn upsert(&mut self, key: &String, record: DeviceInfo) -> (prev: Option<DeviceInfo>)
        requires
            old(self).wf(),
        ensures
            final(self).wf(),
            final(self)@ == old(self)@.insert(key@, record@),
            match prev {
                Some(p) => old(self)@.contains_key(key@) && p@ == old(self)@[key@],
                None => !old(self)@.contains_key(key@),
            },
    {
        let ghost s = self.entries_view();
        match self.find_index(key) {
            Some(i) => {
                let previous = self.entries[i].1.clone();
                proof {
                    lemma_assoc_index(s, i as int);
                }
                let ghost rec_view = record@;
                self.entries.set(i, (key.clone(), record));
                proof {
                    assert(self.entries_view() =~= s.update(i as int, (s[i as int].0, rec_view)));
                    lemma_assoc_update(s, i as int, rec_view);
                    assert(distinct_keys(self.entries_view()));
                }
                Some(previous)
            },
            None => {
                proof {
                    lemma_assoc_contains(s, key@);
                }
                let ghost rec_view = record@;
                self.entries.push((key.clone(), record));
                proof {
                    assert(self.entries_view() =~= s.push((key@, rec_view)));
                    lemma_assoc_push(s, key@, rec_view);
                    assert(distinct_keys(self.entries_view()));
                }
                None
            },
        }
    }

    /// Applies only the fields present in `diff` to the record for `key`;
    /// returns the merged record, or `None` — leaving the store unchanged
    /// and never synthesizing a record — when `key` is absent.
    pub fn merge_update(&mut self, key: &String, diff: &DeviceDiff) -> (r: Option<DeviceInfo>)
        requires
            old(self).wf(),
        ensures
            final(self).wf(),
            old(self)@.contains_key(key@) ==> {
                &&& final(self)@ == old(self)@.insert(
                    key@,
                    spec_merge(old(self)@[key@], diff@),
                )
                &&& (match r {
                    Some(rec) => rec@ == spec_merge(old(self)@[key@], diff@),
                    None => false,
                })
            },
            !old(self)@.contains_key(key@) ==> final(self)@ == old(self)@ && r is None,
    {
        let ghost s = self.entries_view();
        match self.find_index(key) {
            Some(i) => {
                proof {
                    lemma_assoc_index(s, i as int);
                }
                let merged = self.entries[i].1.merged_with(diff);
                let ghost merged_view = merged@;
                let out = merged.clone();
                self.entries.set(i, (key.clone(), merged));
                proof {
                    assert(self.entries_view() =~= s.update(
                        i as int,
                        (s[i as int].0, merged_view),
                    ));
                    lemma_assoc_update(s, i as int, merged_view);
                    assert(distinct_keys(self.entries_view()));
                }
                Some(out)
            },
            None => {
                proof {
                    lemma_assoc_contains(s, key@);
                }
                None
            },
        }
    }

    /// Removes and returns the record for `key`, or `None` — leaving the
    /// store unchanged — when `key` is absent.
    pub fn remove(&mut self, key: &String) -> (r: Option<DeviceInfo>)
        requires
            old(self).wf(),
        ensures
            final(self).wf(),
            old(self)@.contains_key(key@) ==> final(self)@ == old(self)@.remove(key@) && (match r {
                Some(rec) => rec@ == old(self)@[key@],
                None => false,
            }),
            !old(self)@.contains_key(key@) ==> final(self)@ == old(self)@ && r is None,
    {
        let ghost s = self.entries_view();
        match self.find_index(key) {
            Some(i) => {
                proof {
                    lemma_assoc_index(s, i as int);
                }
                let entry = self.entries.remove(i);
                proof {
                    assert(self.entries_view() =~= s.remove(i as int));
                    lemma_assoc_remove(s, i as int);
                    assert(distinct_keys(self.entries_view()));
                }
                Some(entry.1)
            },
            None => {
                proof {
                    lemma_assoc_contains(s, key@);
                }
                None
            },
        }
    }

    /// The record stored for `key`, if any.
    pub fn get(&self, key: &String) -> (r: Option<&DeviceInfo>)
        requires
            self.wf(),
        ensures
            self@.contains_key(key@) ==> (match r {
                Some(rec) => rec@ == self@[key@],
                None => false,
            }),
            !self@.contains_key(key@) ==> r is None,
    {
        let ghost s = self.entries_view();
        match self.find_index(key) {
            Some(i) => {
                proof {
                    lemma_assoc_index(s, i as int);
                }
                Some(&self.entries[i].1)
            },
            None => {
                proof {
                    lemma_assoc_contains(s, key@);
                }
                None
            },
        }
    }

    /// A snapshot copy of all stored records: one per key, each equal to the
    /// stored record; the order carries no meaning.
    pub fn list(&self) -> (r: Vec<DeviceInfo>)
        requires
            self.wf(),
        ensures
            r@.len() == self.entries_view().len(),
            forall|i: int|
                0 <= i < r@.len() ==> self@.contains_key(#[trigger] self.entries_view()[i].0)
                    && r@[i]@ == self@[self.entries_view()[i].0],
            forall|k: Seq<char>|
                self@.contains_key(k) ==> exists|i: int|
                    0 <= i < r@.len() && #[trigger] self.entries_view()[i].0 == k,
    {
        let ghost s = self.entries_view();
        let mut r: Vec<DeviceInfo> = Vec::new();
        let mut i: usize = 0;
        while i < self.entries.len()
            invariant
                i <= self.entries.len(),
                s == self.entries_view(),
                r@.len() == i as nat,
                forall|j: int| 0 <= j < i ==> r@[j]@ == s[j].1,
            decreases self.entries.len() - i,
        {
            r.push(self.entries[i].1.clone());
            i = i + 1;
        }
        proof {
            assert forall|j: int| 0 <= j < r@.len() implies self@.contains_key(
                #[trigger] s[j].0,
            ) && r@[j]@ == self@[s[j].0] by {
                lemma_assoc_index(s, j);
            }
            assert forall|k: Seq<char>| self@.contains_key(k) implies exists|j: int|
                0 <= j < r@.len() && #[trigger] s[j].0 == k by {
                lemma_assoc_contains(s, k);
            }
        }
        r
    }
}

impl View for Registry {
    type V = Map<Seq<char>, DeviceInfoView>;

    /// The registry as a map from key to stored record.
    open spec fn view(&self) -> Map<Seq<char>, DeviceInfoView> {
        assoc_map(self.entries_view())
    }
}

/// Upserting the same record twice for one key yields exactly the store that
/// one upsert yields: the second upsert replaces the record with itself.
pub proof fn lemma_upsert_idempotent(
    m: Map<Seq<char>, DeviceInfoView>,
    k: Seq<char>,
    rec: DeviceInfoView,
)
    ensures
        m.insert(k, rec).insert(k, rec) == m.insert(k, rec),
{
    assert(m.insert(k, rec).insert(k, rec) =~= m.insert(k, rec));
}

} // verus!
