//! The durable key-value store behind persisted fields.
//!
//! A `DurableStore` maps string keys to string records. The view of a store
//! is the mathematical map of its contents; `set_text` is exactly `insert`
//! on that view and `get_text` is exactly lookup. Keys are kept unique, so
//! the store is a plain association list read by one linear scan.
use vstd::prelude::*;

verus! {

struct StoreEntry {
    key: String,
    value: String,
}

/// Key-value persistence: the durable medium consulted at load and updated
/// at flush.
pub struct DurableStore {
    entries: Vec<StoreEntry>,
}

/// The map written so far by a sequence of records, later records winning.
spec fn entries_map(s: Seq<StoreEntry>) -> Map<Seq<char>, Seq<char>>
    decreases s.len(),
{
    if s.len() == 0 {
        Map::empty()
    } else {
        entries_map(s.drop_last()).insert(s.last().key@, s.last().value@)
    }
}

/// A key is in the map of `s` exactly when some record carries it.
proof fn lemma_entries_map_dom(s: Seq<StoreEntry>, k: Seq<char>)
    ensures
        entries_map(s).contains_key(k) <==> exists|i: int| 0 <= i < s.len() && s[i].key@ == k,
    decreases s.len(),
{
    if s.len() > 0 {
        lemma_entries_map_dom(s.drop_last(), k);
        if entries_map(s).contains_key(k) {
            if s.last().key@ == k {
                assert(s[s.len() - 1].key@ == k);
            } else {
                let i = choose|i: int| 0 <= i < s.drop_last().len() && s.drop_last()[i].key@ == k;
                assert(s[i].key@ == k);
            }
        }
        if exists|i: int| 0 <= i < s.len() && s[i].key@ == k {
            let i = choose|i: int| 0 <= i < s.len() && s[i].key@ == k;
            if i < s.len() - 1 {
                assert(s.drop_last()[i].key@ == k);
            }
        }
    }
}

/// With unique keys, the record carrying `k` gives the mapped value.
proof fn lemma_entries_map_at(s: Seq<StoreEntry>, i: int)
    requires
        0 <= i < s.len(),
        forall|j1: int, j2: int| 0 <= j1 < j2 < s.len() ==> s[j1].key@ != s[j2].key@,
    ensures
        entries_map(s).contains_key(s[i].key@),
        entries_map(s)[s[i].key@] == s[i].value@,
    decreases s.len(),
{
    if i == s.len() - 1 {
    } else {
        assert(s[i].key@ != s[s.len() - 1].key@);
        lemma_entries_map_at(s.drop_last(), i);
        assert(s.drop_last()[i] == s[i]);
    }
}

/// Updating the record that carries `k` updates exactly `k` in the map.
proof fn lemma_entries_map_update(s: Seq<StoreEntry>, i: int, e: StoreEntry)
    requires
        0 <= i < s.len(),
        forall|j1: int, j2: int| 0 <= j1 < j2 < s.len() ==> s[j1].key@ != s[j2].key@,
        e.key@ == s[i].key@,
    ensures
        entries_map(s.update(i, e)) =~= entries_map(s).insert(e.key@, e.value@),
    decreases s.len(),
{
    let t = s.update(i, e);
    if i == s.len() - 1 {
        assert(t.drop_last() =~= s.drop_last());
        assert(t.last() == e);
    } else {
        assert(t.drop_last() =~= s.drop_last().update(i, e));
        assert(t.last() == s.last());
        assert(s.drop_last()[i] == s[i]);
        lemma_entries_map_update(s.drop_last(), i, e);
        assert(s[i].key@ != s.last().key@);
    }
}

impl DurableStore {
    /// The store's contents as a map from key to record text.
    pub closed spec fn view(&self) -> Map<Seq<char>, Seq<char>> {
        entries_map(self.entries@)
    }

    /// Keys are pairwise distinct, so one scan settles a lookup.
    pub closed spec fn wf(&self) -> bool {
        forall|j1: int, j2: int|
            0 <= j1 < j2 < self.entries@.len() ==> self.entries@[j1].key@ != self.entries@[j2].key@
    }

    /// An empty medium: no key holds a record.
    pub fn new() -> (r: DurableStore)
        ensures
            r.wf(),
            r@ == Map::<Seq<char>, Seq<char>>::empty(),
    {
        DurableStore { entries: Vec::new() }
    }

    /// Look a key up; `None` exactly when no record was ever written there.
    pub fn get_text(&self, key: &String) -> (r: Option<String>)
        requires
            self.wf(),
        ensures
            match r {
                Some(v) => self@.contains_key(key@) && self@[key@] == v@,
                None => !self@.contains_key(key@),
            },
    {
        let n = self.entries.len();
        let mut i: usize = 0;
        while i < n
            invariant
                self.wf(),
                n == self.entries@.len(),
                0 <= i <= n,
                forall|j: int| 0 <= j < i ==> self.entries@[j].key@ != key@,
            decreases n - i,
        {
            if self.entries[i].key == *key {
                proof {
                    lemma_entries_map_at(self.entries@, i as int);
                }
                return Some(self.entries[i].value.clone());
            }
            i = i + 1;
        }
        proof {
            lemma_entries_map_dom(self.entries@, key@);
        }
        None
    }

    /// Write a record under a key: exactly `insert` on the store's view.
    pub fn set_text(&mut self, key: &String, value: String)
        requires
            old(self).wf(),
        ensures
            final(self).wf(),
            final(self)@ == old(self)@.insert(key@, value@),
    {
        let n = self.entries.len();
        let mut i: usize = 0;
        while i < n
            invariant
                *self == *old(self),
                self.wf(),
                n == self.entries@.len(),
                0 <= i <= n,
                forall|j: int| 0 <= j < i ==> self.entries@[j].key@ != key@,
            decreases n - i,
        {
            if self.entries[i].key == *key {
                proof {
                    lemma_entries_map_update(
                        self.entries@,
                        i as int,
                        StoreEntry { key: self.entries@[i as int].key, value },
                    );
                }
                let ghost pre = self.entries@;
                let entry = &mut self.entries[i];
                entry.value = value;
                proof {
                    assert(self.entries@ =~= pre.update(
                        i as int,
                        StoreEntry { key: pre[i as int].key, value },
                    ));
                }
                return ;
            }
            i = i + 1;
        }
        proof {
            lemma_entries_map_dom(self.entries@, key@);
        }
        let ghost pre = self.entries@;
        self.entries.push(StoreEntry { key: key.clone(), value });
        proof {
            assert(self.entries@.drop_last() =~= pre);
            assert(forall|j: int| 0 <= j < pre.len() ==> pre[j].key@ != key@);
        }
    }
}

} // verus!
