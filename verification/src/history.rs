//! The "recently opened" history: an append-only record of opened paths,
//! keyed by path with a last-access time, queried as the most recent few in
//! recency order.
//!
//! This is the in-memory model the viewer works against; persisting it (the
//! desktop build keeps it in a small SQLite database) is plain I/O around
//! these rules.

use vstd::prelude::*;

verus! {

/// How many records a history query returns at most.
pub const HISTORY_LIMIT: usize = 10;

/// One "recently opened" record: a key, the opened path, and when it was
/// last opened, as seconds since the Unix epoch.
#[derive(Debug)]
pub struct FileHistory {
    pub id: i32,
    pub path: String,
    pub unixtime: u64,
}

/// Whether some record in `entries` carries `path`.
pub open spec fn contains_path(entries: Seq<FileHistory>, path: Seq<char>) -> bool {
    exists|i: int| 0 <= i < entries.len() && (#[trigger] entries[i]).path@ == path
}

/// Records in non-increasing recency order.
pub open spec fn spec_sorted_by_recency(entries: Seq<FileHistory>) -> bool {
    forall|i: int, j: int|
        #![trigger entries[i], entries[j]]
        0 <= i < j < entries.len() ==> entries[i].unixtime >= entries[j].unixtime
}

/// `s` is `of` rearranged into non-increasing recency order.
pub open spec fn spec_recency_sorted(s: Seq<FileHistory>, of: Seq<FileHistory>) -> bool {
    &&& s.to_multiset() == of.to_multiset()
    &&& s.len() == of.len()
    &&& spec_sorted_by_recency(s)
}

/// An exact copy of a record.
fn clone_entry(entry: &FileHistory) -> (r: FileHistory)
    ensures
        r == *entry,
{
    FileHistory { id: entry.id, path: entry.path.clone(), unixtime: entry.unixtime }
}

/// The history store: one record per path, in insertion order; queries sort
/// by recency and cap the count.
pub struct HistoryStore {
    pub entries: Vec<FileHistory>,
    /// The key the next added record receives, mirroring an autoincrement
    /// column.
    pub next_id: i32,
}

impl HistoryStore {
    /// The store's invariant: no two records share a path.
    pub open spec fn wf(&self) -> bool {
        forall|i: int, j: int|
            #![trigger self.entries@[i], self.entries@[j]]
            0 <= i < j < self.entries@.len() ==> self.entries@[i].path@ != self.entries@[j].path@
    }

    /// An empty history.
    pub fn new() -> (store: HistoryStore)
        ensures
            store.wf(),
            store.entries@.len() == 0,
            store.next_id == 1,
    {
        HistoryStore { entries: Vec::new(), next_id: 1 }
    }

    /// Whether `file_path` was recorded before.
    pub fn is_exists_file_path(&self, file_path: &String) -> (r: bool)
        ensures
            r == contains_path(self.entries@, file_path@),
    {
        let mut i: usize = 0;
        while i < self.entries.len()
            invariant
                i <= self.entries@.len(),
                forall|k: int| 0 <= k < i ==> (#[trigger] self.entries@[k]).path@ != file_path@,
            decreases self.entries@.len() - i,
        {
            if self.entries[i].path == *file_path {
                return true;
            }
            i = i + 1;
        }
        false
    }

    /// Appends a record for a path seen for the first time. A path already
    /// recorded must be updated instead, never inserted twice.
    pub fn add_history(&mut self, file_path: String, unixtime: u64)
        requires
            old(self).wf(),
            !contains_path(old(self).entries@, file_path@),
            old(self).next_id < i32::MAX,
        ensures
            final(self).wf(),
            final(self).entries@ == old(self).entries@.push(
                FileHistory { id: old(self).next_id, path: file_path, unixtime },
            ),
            final(self).next_id == old(self).next_id + 1,
    {
        let id = self.next_id;
        self.next_id = self.next_id + 1;
        self.entries.push(FileHistory { id, path: file_path, unixtime });
    }

    /// Refreshes the last-access time of the record carrying `file_path`,
    /// leaving every other record — and the order — alone. A path never
    /// recorded leaves the store unchanged.
    pub fn update_history(&mut self, file_path: &String, unixtime: u64)
        requires
            old(self).wf(),
        ensures
            final(self).wf(),
            final(self).next_id == old(self).next_id,
            final(self).entries@.len() == old(self).entries@.len(),
            forall|i: int|
                0 <= i < old(self).entries@.len() ==> final(self).entries@[i] == if (#[trigger] old(
                    self,
                ).entries@[i]).path@ == file_path@ {
                    (FileHistory {
                        id: old(self).entries@[i].id,
                        path: old(self).entries@[i].path,
                        unixtime,
                    })
                } else {
                    old(self).entries@[i]
                },
    {
        let mut i: usize = 0;
        while i < self.entries.len()
            invariant
                i <= self.entries@.len(),
                old(self).wf(),
                self.next_id == old(self).next_id,
                self.entries@.len() == old(self).entries@.len(),
                forall|k: int|
                    0 <= k < self.entries@.len() ==> #[trigger] self.entries@[k] == if k < i && old(
                        self,
                    ).entries@[k].path@ == file_path@ {
                        (FileHistory {
                            id: old(self).entries@[k].id,
                            path: old(self).entries@[k].path,
                            unixtime,
                        })
                    } else {
                        old(self).entries@[k]
                    },
            decreases self.entries@.len() - i,
        {
            if self.entries[i].path == *file_path {
                let id = self.entries[i].id;
                let path = self.entries[i].path.clone();
                self.entries[i] = FileHistory { id, path, unixtime };
            }
            i = i + 1;
        }
    }

    /// What the viewer calls after a successful load: refreshes the path's
    /// record if one exists, appends one otherwise.
    pub fn record_opened(&mut self, file_path: &String, unixtime: u64)
        requires
            old(self).wf(),
            old(self).next_id < i32::MAX,
        ensures
            final(self).wf(),
            contains_path(final(self).entries@, file_path@),
            !contains_path(old(self).entries@, file_path@) ==> final(self).entries@ == old(
                self,
            ).entries@.push(
                FileHistory { id: old(self).next_id, path: *file_path, unixtime },
            ),
            contains_path(old(self).entries@, file_path@) ==> (final(self).entries@.len() == old(
                self,
            ).entries@.len() && forall|i: int|
                0 <= i < old(self).entries@.len() ==> final(self).entries@[i] == if (#[trigger] old(
                    self,
                ).entries@[i]).path@ == file_path@ {
                    (FileHistory {
                        id: old(self).entries@[i].id,
                        path: old(self).entries@[i].path,
                        unixtime,
                    })
                } else {
                    old(self).entries@[i]
                }),
    {
        if self.is_exists_file_path(file_path) {
            self.update_history(file_path, unixtime);
            proof {
                let witness = choose|i: int|
                    0 <= i < old(self).entries@.len() && (#[trigger] old(self).entries@[i]).path@
                        == file_path@;
                assert(self.entries@[witness].path@ == file_path@);
            }
        } else {
            self.add_history(file_path.clone(), unixtime);
            proof {
                let last = self.entries@.len() - 1;
                assert(self.entries@[last].path@ == file_path@);
            }
        }
    }

    /// The most recently opened records, newest first, at most
    /// `HISTORY_LIMIT` of them: the first records of the history rearranged
    /// into non-increasing recency order.
    pub fn get_history(&self) -> (r: Vec<FileHistory>)
        ensures
            r@.len() == if self.entries@.len() < HISTORY_LIMIT as int {
                self.entries@.len() as int
            } else {
                HISTORY_LIMIT as int
            },
            spec_sorted_by_recency(r@),
            exists|s: Seq<FileHistory>|
                #[trigger] spec_recency_sorted(s, self.entries@) && r@ == s.take(r@.len() as int),
    {
        broadcast use vstd::seq_lib::group_to_multiset_ensures;

        let mut rest: Vec<FileHistory> = Vec::new();
        let mut i: usize = 0;
        while i < self.entries.len()
            invariant
                i <= self.entries@.len(),
                rest@ =~= self.entries@.take(i as int),
            decreases self.entries@.len() - i,
        {
            rest.push(clone_entry(&self.entries[i]));
            proof {
                assert(rest@ =~= self.entries@.take(i as int + 1));
            }
            i = i + 1;
        }
        proof {
            assert(rest@ =~= self.entries@);
        }
        let ghost original = rest@;
        let mut sorted: Vec<FileHistory> = Vec::new();
        while rest.len() > 0
            invariant
                sorted@.to_multiset().add(rest@.to_multiset()) == original.to_multiset(),
                sorted@.len() + rest@.len() == original.len(),
                spec_sorted_by_recency(sorted@),
                forall|a: int, b: int|
                    #![trigger sorted@[a], rest@[b]]
                    0 <= a < sorted@.len() && 0 <= b < rest@.len() ==> sorted@[a].unixtime
                        >= rest@[b].unixtime,
            decreases rest@.len(),
        {
            let mut max_idx: usize = 0;
            let mut k: usize = 1;
            while k < rest.len()
                invariant
                    max_idx < k,
                    1 <= k <= rest@.len(),
                    forall|t: int|
                        0 <= t < k ==> rest@[max_idx as int].unixtime >= (#[trigger] rest@[t]).unixtime,
                decreases rest@.len() - k,
            {
                if rest[k].unixtime > rest[max_idx].unixtime {
                    max_idx = k;
                }
                k = k + 1;
            }
            let ghost rest_before = rest@;
            let m = rest.remove(max_idx);
            proof {
                broadcast use vstd::seq_lib::group_to_multiset_ensures;

                assert(rest_before.to_multiset().count(m) > 0) by {
                    rest_before.to_multiset_ensures();
                    assert(rest_before[max_idx as int] == m);
                    assert(rest_before.contains(m));
                }
                assert(rest@ == rest_before.remove(max_idx as int));
                assert(rest_before.remove(max_idx as int).to_multiset() =~= rest_before.to_multiset()
                    .remove(m));
                assert(sorted@.push(m).to_multiset() =~= sorted@.to_multiset().insert(m));
                assert(sorted@.push(m).to_multiset().add(rest@.to_multiset())
                    =~= sorted@.to_multiset().add(rest_before.to_multiset()));
                assert forall|b: int| 0 <= b < rest@.len() implies m.unixtime
                    >= (#[trigger] rest@[b]).unixtime by {
                    if b < max_idx {
                        assert(rest@[b] == rest_before[b]);
                    } else {
                        assert(rest@[b] == rest_before[b + 1]);
                    }
                }
            }
            sorted.push(m);
        }
        proof {
            assert(sorted@.to_multiset() =~= original.to_multiset());
            assert(sorted@.len() == original.len()) by {
                broadcast use vstd::seq_lib::group_to_multiset_ensures;

                assert(sorted@.to_multiset().len() == original.to_multiset().len());
            }
        }
        let ghost full = sorted@;
        proof {
            assert(full.take(full.len() as int) =~= full);
        }
        while sorted.len() > HISTORY_LIMIT
            invariant
                sorted@.len() <= full.len(),
                sorted@ == full.take(sorted@.len() as int),
                HISTORY_LIMIT as int <= sorted@.len() || sorted@ == full,
            decreases sorted@.len(),
        {
            let ghost before = sorted@;
            let ghost n = sorted@.len() as int;
            sorted.pop();
            proof {
                assert(sorted@ == before.subrange(0, n - 1));
                assert forall|t: int| 0 <= t < n - 1 implies sorted@[t] == full[t] by {
                    assert(before[t] == full.take(n)[t]);
                }
                assert(sorted@ =~= full.take(n - 1));
            }
        }
        proof {
            assert(spec_recency_sorted(full, self.entries@));
            assert forall|a: int, b: int|
                #![trigger sorted@[a], sorted@[b]]
                0 <= a < b < sorted@.len() implies sorted@[a].unixtime >= sorted@[b].unixtime by {
                assert(sorted@[a] == full[a]);
                assert(sorted@[b] == full[b]);
            }
        }
        sorted
    }
}

} // verus!
