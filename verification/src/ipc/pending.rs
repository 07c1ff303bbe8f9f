//! The pending table: unfinished correlation ids and the sinks of the
//! callers that wait for them.

use std::collections::HashMap;
use vstd::prelude::*;
use vstd::std_specs::hash::spec_keys_iter;
use vstd::std_specs::iter::IteratorSpec;

verus! {

broadcast use vstd::std_specs::hash::group_hash_axioms;

/// Maps each unfinished correlation id to the sink of its caller.
pub struct PendingTable<S> {
    entries: HashMap<u64, S>,
}

/// The ids of a list of entries, in the order of the list.
pub open spec fn ids_of<S>(entries: Seq<(u64, S)>) -> Seq<u64> {
    entries.map_values(|e: (u64, S)| e.0)
}

/// A list of entries holds exactly what a table holds: each id of the table
/// once, with its sink.
pub open spec fn lists<S>(entries: Seq<(u64, S)>, table: Map<u64, S>) -> bool {
    &&& ids_of(entries).no_duplicates()
    &&& entries.len() == table.dom().len()
    &&& forall|i: int|
        0 <= i < entries.len() ==> table.contains_key(#[trigger] entries[i].0) && table[entries[i].0]
            == entries[i].1
}

impl<S> View for PendingTable<S> {
    type V = Map<u64, S>;

    closed spec fn view(&self) -> Map<u64, S> {
        self.entries@
    }
}

fn collect_ids<S>(map: &HashMap<u64, S>) -> (ids: Vec<u64>)
    ensures
        ids@.to_set() == map@.dom(),
        ids@.no_duplicates(),
{
    let mut ids: Vec<u64> = Vec::new();
    let ghost full = spec_keys_iter(map).remaining();
    for k in it: map.keys()
        invariant
            it.seq() == full,
            ids@ == full.take(it.index()).unref(),
    {
        ids.push(*k);
    }
    assert(ids@ =~= full.unref());
    ids
}

impl<S> PendingTable<S> {
    /// An empty table.
    pub fn new() -> (r: Self)
        ensures
            r@ == Map::<u64, S>::empty(),
    {
        PendingTable { entries: HashMap::new() }
    }

    /// The number of unfinished ids.
    pub fn len(&self) -> (n: usize)
        ensures
            n == self@.dom().len(),
            self@.dom().finite(),
    {
        self.entries.len()
    }

    /// Whether an id is unfinished.
    pub fn contains(&self, id: u64) -> (r: bool)
        ensures
            r == self@.contains_key(id),
    {
        self.entries.contains_key(&id)
    }

    /// Registers a sink under an id. A sink that was registered under the
    /// same id before is handed back.
    pub fn insert(&mut self, id: u64, sink: S) -> (displaced: Option<S>)
        ensures
            final(self)@ == old(self)@.insert(id, sink),
            match displaced {
                Some(s) => old(self)@.contains_key(id) && old(self)@[id] == s,
                None => !old(self)@.contains_key(id),
            },
    {
        self.entries.insert(id, sink)
    }

    /// Takes the sink of an id out of the table, where the id is unfinished.
    pub fn remove(&mut self, id: u64) -> (sink: Option<S>)
        ensures
            final(self)@ == old(self)@.remove(id),
            match sink {
                Some(s) => old(self)@.contains_key(id) && old(self)@[id] == s,
                None => !old(self)@.contains_key(id),
            },
    {
        self.entries.remove(&id)
    }

    /// Takes every entry out of the table. The order of the entries in the
    /// list is not fixed.
    pub fn drain(&mut self) -> (entries: Vec<(u64, S)>)
        ensures
            final(self)@ == Map::<u64, S>::empty(),
            lists(entries@, old(self)@),
    {
        let ids = collect_ids(&self.entries);
        let ghost before = self.entries@;
        proof {
            ids@.unique_seq_to_set();
        }
        let mut out: Vec<(u64, S)> = Vec::new();
        let n = ids.len();
        let mut i: usize = 0;
        while i < n
            invariant
                n == ids@.len(),
                0 <= i <= n,
                before == old(self)@,
                ids@.no_duplicates(),
                ids@.to_set() == before.dom(),
                out@.len() == i,
                ids_of(out@) == ids@.take(i as int),
                forall|j: int|
                    0 <= j < i ==> before.contains_key(#[trigger] out@[j].0) && before[out@[j].0]
                        == out@[j].1,
                forall|id: u64|
                    self.entries@.contains_key(id) <==> before.contains_key(id) && !ids@.take(
                        i as int,
                    ).contains(id),
                forall|id: u64| self.entries@.contains_key(id) ==> self.entries@[id] == before[id],
            decreases n - i,
        {
            let id = ids[i];
            let ghost sofar = out@;
            assert(ids@.to_set().contains(id));
            assert(!ids@.take(i as int).contains(id)) by {
                let prev = ids@.take(i as int);
                if prev.contains(id) {
                    let j = choose|j: int| 0 <= j < prev.len() && #[trigger] prev[j] == id;
                    assert(ids@[j] == ids@[i as int]);
                }
            }
            let removed = self.entries.remove(&id);
            assert(removed is Some);
            if let Some(sink) = removed {
                out.push((id, sink));
            }
            proof {
                let prev = ids@.take(i as int);
                let next = ids@.take(i + 1);
                assert(next =~= prev.push(id));
                assert(ids_of(out@) =~= next) by {
                    assert(out@ == sofar.push(out@[i as int]));
                    assert(ids_of(out@) =~= ids_of(sofar).push(id));
                }
                assert forall|k: u64|
                    self.entries@.contains_key(k) <==> before.contains_key(k) && !next.contains(
                        k,
                    ) by {
                    if next.contains(k) {
                        let j = choose|j: int| 0 <= j < next.len() && #[trigger] next[j] == k;
                        if j < i {
                            assert(prev[j] == k);
                        }
                    }
                    if prev.contains(k) {
                        let j = choose|j: int| 0 <= j < prev.len() && #[trigger] prev[j] == k;
                        assert(next[j] == k);
                    }
                    if k == id {
                        assert(next[i as int] == k);
                    }
                }
            }
            i = i + 1;
        }
        proof {
            assert(ids@.take(n as int) =~= ids@);
            assert(self.entries@ =~= Map::<u64, S>::empty()) by {
                assert forall|k: u64| !self.entries@.contains_key(k) by {
                    if before.contains_key(k) {
                        assert(ids@.to_set().contains(k));
                    }
                }
            }
            assert(ids@.len() == before.dom().len());
        }
        out
    }
}

/// Completion does not depend on the order of the responses: taking one
/// unfinished id out of the table leaves every other id with its own sink.
pub proof fn lemma_completion_is_order_independent<S>(table: Map<u64, S>, a: u64, b: u64)
    requires
        table.contains_key(a),
        table.contains_key(b),
        a != b,
    ensures
        table.remove(b).contains_key(a),
        table.remove(b)[a] == table[a],
        table.remove(a).contains_key(b),
        table.remove(a)[b] == table[b],
        table.remove(a).remove(b) == table.remove(b).remove(a),
{
    assert(table.remove(a).remove(b) =~= table.remove(b).remove(a));
}

/// A response that comes late finds nothing: once an id is taken out of the
/// table, it is not in the table.
pub proof fn lemma_removed_id_is_gone<S>(table: Map<u64, S>, id: u64)
    ensures
        !table.remove(id).contains_key(id),
        forall|other: u64| other != id ==> (table.remove(id).contains_key(other)
            <==> table.contains_key(other)),
{
}

} // verus!
