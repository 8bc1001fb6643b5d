//! Tables: values kept under keys, each key once. A signer keeps the rounds
//! of its sessions under their ids, and a participant of the peer-to-peer
//! topology keeps its links under the identities of its peers. What is kept
//! under one key shares nothing with what is kept under another: inserting
//! or removing one leaves all others as they were.
//!
//! Keys are told apart by their identifiers in a search from the front. The
//! hash map of std is not used for these keys: its specification speaks of
//! keys of primitive types only, and text and identities are neither.

use vstd::prelude::*;
use crate::identity::Identity;

verus! {

/// What can serve as a key of a table: it has an identifier, and two keys
/// can be told apart by their identifiers.
pub trait TableKey: Sized {
    /// The identifiers of the keys.
    type Id;

    /// The identifier of this key.
    spec fn id(&self) -> Self::Id;

    /// Whether two keys have the same identifier.
    fn same_key(&self, other: &Self) -> (r: bool)
        ensures
            r == (self.id() == other.id()),
    ;

    /// A copy of this key.
    fn copy_key(&self) -> (r: Self)
        ensures
            r.id() == self.id(),
    ;
}

impl TableKey for String {
    type Id = Seq<char>;

    open spec fn id(&self) -> Seq<char> {
        self@
    }

    fn same_key(&self, other: &Self) -> (r: bool) {
        *self == *other
    }

    fn copy_key(&self) -> (r: Self) {
        self.clone()
    }
}

impl TableKey for Identity {
    type Id = Seq<u8>;

    open spec fn id(&self) -> Seq<u8> {
        self@
    }

    fn same_key(&self, other: &Self) -> (r: bool) {
        self.same_as(other)
    }

    fn copy_key(&self) -> (r: Self) {
        self.clone()
    }
}

/// One entry of a table.
pub struct Entry<K, T> {
    pub key: K,
    pub value: T,
}

/// A table. The view maps the identifier of each key to the value kept
/// under it.
pub struct Table<K: TableKey, T> {
    entries: Vec<Entry<K, T>>,
}

/// The identifiers of a sequence of keys, in the same order.
pub open spec fn key_ids<K: TableKey>(keys: Seq<K>) -> Seq<K::Id> {
    keys.map_values(|k: K| k.id())
}

/// Whether `entries` holds the key with identifier `id` at `i`.
pub open spec fn holds_at<K: TableKey, T>(entries: Seq<Entry<K, T>>, id: K::Id, i: int) -> bool {
    0 <= i < entries.len() && entries[i].key.id() == id
}

/// Whether no two entries share a key.
pub open spec fn distinct_keys<K: TableKey, T>(entries: Seq<Entry<K, T>>) -> bool {
    forall|i: int, j: int|
        0 <= i < entries.len() && 0 <= j < entries.len() && i != j ==> (
        #[trigger] entries[i]).key.id() != (#[trigger] entries[j]).key.id()
}

/// The values of `entries` by the identifiers of their keys.
pub open spec fn values_by_id<K: TableKey, T>(entries: Seq<Entry<K, T>>) -> Map<K::Id, T> {
    Map::new(
        |id: K::Id| exists|i: int| holds_at(entries, id, i),
        |id: K::Id| entries[choose|i: int| holds_at(entries, id, i)].value,
    )
}

/// Among distinct keys, the entry at `i` is the one that the identifier of
/// its key maps to.
proof fn lemma_entry<K: TableKey, T>(entries: Seq<Entry<K, T>>, i: int)
    requires
        distinct_keys(entries),
        0 <= i < entries.len(),
    ensures
        values_by_id(entries).contains_key(entries[i].key.id()),
        values_by_id(entries)[entries[i].key.id()] == entries[i].value,
{
    let id = entries[i].key.id();
    assert(holds_at(entries, id, i));
    let c = choose|k: int| holds_at(entries, id, k);
    assert(holds_at(entries, id, c));
    if c != i {
        assert(entries[c].key.id() != entries[i].key.id());
    }
}

impl<K: TableKey, T> View for Table<K, T> {
    type V = Map<K::Id, T>;

    closed spec fn view(&self) -> Map<K::Id, T> {
        values_by_id(self.entries@)
    }
}

impl<K: TableKey, T> Table<K, T> {
    /// What holds of every table: no key occurs twice.
    pub closed spec fn wf(&self) -> bool {
        distinct_keys(self.entries@)
    }

    /// An empty table.
    pub fn new() -> (r: Table<K, T>)
        ensures
            r.wf(),
            r@ == Map::<K::Id, T>::empty(),
    {
        let r = Table { entries: Vec::new() };
        assert(r@ =~= Map::<K::Id, T>::empty());
        r
    }

    /// The number of entries.
    pub fn len(&self) -> (r: usize)
        requires
            self.wf(),
        ensures
            r == self@.dom().len(),
            self@.dom().finite(),
    {
        proof {
            lemma_count(self.entries@);
        }
        self.entries.len()
    }

    /// Where the key stands.
    fn position(&self, key: &K) -> (r: Option<usize>)
        ensures
            match r {
                Some(i) => holds_at(self.entries@, key.id(), i as int),
                None => !self@.contains_key(key.id()),
            },
    {
        let mut i: usize = 0;
        while i < self.entries.len()
            invariant
                i <= self.entries@.len(),
                forall|k: int| 0 <= k < i ==> !holds_at(self.entries@, key.id(), k),
            decreases self.entries@.len() - i,
        {
            if self.entries[i].key.same_key(key) {
                return Some(i);
            }
            i += 1;
        }
        None
    }

    /// Whether something is kept under the key.
    pub fn contains(&self, key: &K) -> (r: bool)
        ensures
            r == self@.contains_key(key.id()),
    {
        match self.position(key) {
            Some(i) => true,
            None => false,
        }
    }

    /// What is kept under the key.
    pub fn get(&self, key: &K) -> (r: Option<&T>)
        requires
            self.wf(),
        ensures
            match r {
                Some(value) => self@.contains_key(key.id()) && self@[key.id()] == *value,
                None => !self@.contains_key(key.id()),
            },
    {
        match self.position(key) {
            Some(i) => {
                proof {
                    lemma_entry(self.entries@, i as int);
                }
                Some(&self.entries[i].value)
            },
            None => None,
        }
    }

    /// Takes what is kept under the key out of the table.
    pub fn remove(&mut self, key: &K) -> (r: Option<T>)
        requires
            old(self).wf(),
        ensures
            final(self).wf(),
            final(self)@ == old(self)@.remove(key.id()),
            match r {
                Some(value) => old(self)@.contains_key(key.id()) && old(self)@[key.id()]
                    == value,
                None => !old(self)@.contains_key(key.id()),
            },
    {
        match self.position(key) {
            None => {
                assert(self@ =~= old(self)@.remove(key.id()));
                None
            },
            Some(p) => {
                let ghost before = self.entries@;
                let entry = self.entries.remove(p);
                proof {
                    let after = self.entries@;
                    lemma_entry(before, p as int);
                    assert forall|i: int, j: int|
                        0 <= i < after.len() && 0 <= j < after.len() && i != j implies (
                    #[trigger] after[i]).key.id() != (#[trigger] after[j]).key.id() by {
                        let i0 = if i < p { i } else { i + 1 };
                        let j0 = if j < p { j } else { j + 1 };
                        assert(after[i] == before[i0]);
                        assert(after[j] == before[j0]);
                    }
                    assert forall|id: K::Id|
                        values_by_id(after).contains_key(id) <==> id != key.id() && values_by_id(
                            before,
                        ).contains_key(id) by {
                        if values_by_id(after).contains_key(id) {
                            let k = choose|k: int| holds_at(after, id, k);
                            let k0 = if k < p { k } else { k + 1 };
                            assert(after[k] == before[k0]);
                            assert(holds_at(before, id, k0));
                            assert(before[k0].key.id() != before[p as int].key.id());
                        }
                        if id != key.id() && values_by_id(before).contains_key(id) {
                            let k = choose|k: int| holds_at(before, id, k);
                            let k1 = if k < p { k } else { k - 1 };
                            assert(after[k1] == before[k]);
                            assert(holds_at(after, id, k1));
                        }
                    }
                    assert forall|id: K::Id| values_by_id(after).contains_key(id) implies values_by_id(
                        after,
                    )[id] == values_by_id(before)[id] by {
                        let k = choose|k: int| holds_at(after, id, k);
                        let k0 = if k < p { k } else { k + 1 };
                        assert(after[k] == before[k0]);
                        lemma_entry(after, k);
                        lemma_entry(before, k0);
                    }
                    assert(self@ =~= old(self)@.remove(key.id()));
                }
                Some(entry.value)
            },
        }
    }

    /// Keeps `value` under the key, in place of anything kept under it
    /// before.
    pub fn insert(&mut self, key: K, value: T)
        requires
            old(self).wf(),
        ensures
            final(self).wf(),
            final(self)@ == old(self)@.insert(key.id(), value),
    {
        let _ = self.remove(&key);
        let ghost before = self.entries@;
        let ghost id = key.id();
        self.entries.push(Entry { key, value });
        proof {
            let after = self.entries@;
            let last = before.len() as int;
            assert(!values_by_id(before).contains_key(id));
            assert(after[last].key.id() == id);
            assert forall|i: int, j: int|
                0 <= i < after.len() && 0 <= j < after.len() && i != j implies (
            #[trigger] after[i]).key.id() != (#[trigger] after[j]).key.id() by {
                if i < last && j < last {
                    assert(after[i] == before[i]);
                    assert(after[j] == before[j]);
                } else if i < last {
                    assert(after[i] == before[i]);
                    if before[i].key.id() == id {
                        assert(holds_at(before, id, i));
                    }
                } else {
                    assert(after[j] == before[j]);
                    if before[j].key.id() == id {
                        assert(holds_at(before, id, j));
                    }
                }
            }
            lemma_entry(after, last);
            assert forall|other: K::Id|
                values_by_id(after).contains_key(other) <==> other == id || values_by_id(
                    before,
                ).contains_key(other) by {
                if values_by_id(after).contains_key(other) && other != id {
                    let k = choose|k: int| holds_at(after, other, k);
                    assert(after[k] == before[k]);
                    assert(holds_at(before, other, k));
                }
                if values_by_id(before).contains_key(other) {
                    let k = choose|k: int| holds_at(before, other, k);
                    assert(after[k] == before[k]);
                    assert(holds_at(after, other, k));
                }
            }
            assert forall|other: K::Id|
                other != id && values_by_id(before).contains_key(other) implies values_by_id(
                after,
            )[other] == values_by_id(before)[other] by {
                let k = choose|k: int| holds_at(before, other, k);
                assert(after[k] == before[k]);
                lemma_entry(after, k);
                lemma_entry(before, k);
            }
            assert(self@ =~= old(self)@.remove(id).insert(id, value));
            assert(old(self)@.remove(id).insert(id, value) =~= old(self)@.insert(id, value));
        }
    }

    /// The keys of the table, each once.
    pub fn keys(&self) -> (r: Vec<K>)
        requires
            self.wf(),
        ensures
            key_ids(r@).no_duplicates(),
            key_ids(r@).to_set() == self@.dom(),
            r@.len() == self@.dom().len(),
    {
        let mut out: Vec<K> = Vec::new();
        let mut i: usize = 0;
        while i < self.entries.len()
            invariant
                i <= self.entries@.len(),
                out@.len() == i,
                forall|k: int| 0 <= k < i ==> (#[trigger] out@[k]).id() == self.entries@[k].key.id(),
            decreases self.entries@.len() - i,
        {
            out.push(self.entries[i].key.copy_key());
            i += 1;
        }
        proof {
            let ids = key_ids(out@);
            let entries = self.entries@;
            lemma_count(entries);
            assert forall|a: int, b: int|
                0 <= a < ids.len() && 0 <= b < ids.len() && a != b implies ids[a] != ids[b] by {
                assert(ids[a] == entries[a].key.id());
                assert(ids[b] == entries[b].key.id());
            }
            assert forall|id: K::Id| ids.to_set().contains(id) <==> self@.dom().contains(id) by {
                if ids.to_set().contains(id) {
                    let k = choose|k: int| 0 <= k < ids.len() && ids[k] == id;
                    assert(holds_at(entries, id, k));
                }
                if self@.dom().contains(id) {
                    let k = choose|k: int| holds_at(entries, id, k);
                    assert(ids[k] == id);
                }
            }
            assert(ids.to_set() =~= self@.dom());
        }
        out
    }
}

/// Among distinct keys there are as many identifiers as entries.
proof fn lemma_count<K: TableKey, T>(entries: Seq<Entry<K, T>>)
    requires
        distinct_keys(entries),
    ensures
        values_by_id(entries).dom().finite(),
        values_by_id(entries).dom().len() == entries.len(),
    decreases entries.len(),
{
    if entries.len() == 0 {
        assert(values_by_id(entries).dom() =~= Set::<K::Id>::empty());
    } else {
        let front = entries.drop_last();
        let last = entries.last();
        assert forall|i: int, j: int|
            0 <= i < front.len() && 0 <= j < front.len() && i != j implies (
        #[trigger] front[i]).key.id() != (#[trigger] front[j]).key.id() by {
            assert(front[i] == entries[i]);
            assert(front[j] == entries[j]);
        }
        lemma_count(front);
        assert forall|id: K::Id|
            values_by_id(entries).dom().contains(id) <==> values_by_id(front).dom().insert(
                last.key.id(),
            ).contains(id) by {
            if values_by_id(entries).dom().contains(id) && id != last.key.id() {
                let k = choose|k: int| holds_at(entries, id, k);
                assert(front[k] == entries[k]);
                assert(holds_at(front, id, k));
            }
            if values_by_id(front).dom().contains(id) {
                let k = choose|k: int| holds_at(front, id, k);
                assert(front[k] == entries[k]);
                assert(holds_at(entries, id, k));
            }
            if id == last.key.id() {
                assert(holds_at(entries, id, entries.len() - 1));
            }
        }
        assert(values_by_id(entries).dom() =~= values_by_id(front).dom().insert(last.key.id()));
        assert(!values_by_id(front).dom().contains(last.key.id())) by {
            if values_by_id(front).dom().contains(last.key.id()) {
                let k = choose|k: int| holds_at(front, last.key.id(), k);
                assert(front[k] == entries[k]);
                assert(entries[k].key.id() != entries[entries.len() - 1].key.id());
            }
        }
    }
}

} // verus!
