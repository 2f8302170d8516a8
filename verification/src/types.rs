//! Plain values shared by the contracts: account and contract addresses,
//! 32-byte identifiers, and a small keyed table that the contract state
//! is built from.

use vstd::prelude::*;
use vstd::std_specs::cmp::PartialEqSpecImpl;

verus! {

/// Whether an address names an account (`G...`) or a contract (`C...`).
#[derive(Clone, Copy, Debug, PartialEq, Eq, Structural)]
pub enum AddrKind {
    Account,
    Contract,
}

/// A Stellar address held by its payload: the account's Ed25519 key or the
/// contract's id hash.
#[derive(Clone, Copy, Debug)]
pub struct Addr {
    pub kind: AddrKind,
    pub key: [u8; 32],
}

/// Compares two 32-byte identifiers.
pub fn bytes32_eq(a: &[u8; 32], b: &[u8; 32]) -> (r: bool)
    ensures
        r == (*a == *b),
{
    let mut i: usize = 0;
    while i < 32
        invariant
            0 <= i <= 32,
            forall|j: int| 0 <= j < i ==> a@[j] == b@[j],
        decreases 32 - i,
    {
        if a[i] != b[i] {
            assert(a@[i as int] != b@[i as int]);
            return false;
        }
        i = i + 1;
    }
    assert(*a =~= *b);
    true
}

/// A copy of a byte string.
pub fn copy_bytes(v: &Vec<u8>) -> (r: Vec<u8>)
    ensures
        r@ == v@,
{
    let mut r: Vec<u8> = Vec::new();
    let mut i: usize = 0;
    while i < v.len()
        invariant
            0 <= i <= v@.len(),
            r@ == v@.take(i as int),
        decreases v@.len() - i,
    {
        r.push(v[i]);
        assert(v@.take(i + 1) =~= v@.take(i as int).push(v@[i as int]));
        i = i + 1;
    }
    assert(v@.take(v@.len() as int) =~= v@);
    r
}

impl Addr {
    /// The address of an account with the given Ed25519 public key.
    pub fn account(key: [u8; 32]) -> (r: Addr)
        ensures
            r.kind == AddrKind::Account,
            r.key == key,
    {
        Addr { kind: AddrKind::Account, key }
    }

    /// The address of a contract with the given id hash.
    pub fn contract(key: [u8; 32]) -> (r: Addr)
        ensures
            r.kind == AddrKind::Contract,
            r.key == key,
    {
        Addr { kind: AddrKind::Contract, key }
    }
}

impl PartialEqSpecImpl for Addr {
    open spec fn obeys_eq_spec() -> bool {
        true
    }

    open spec fn eq_spec(&self, other: &Addr) -> bool {
        self.kind == other.kind && self.key == other.key
    }
}

impl PartialEq for Addr {
    fn eq(&self, other: &Self) -> (r: bool) {
        self.kind == other.kind && bytes32_eq(&self.key, &other.key)
    }
}

impl Eq for Addr {
}

/// A key of a [`Table`]: a copyable value with an executable equality that
/// agrees with equality of values.
pub trait TableKey: Copy + Sized {
    fn same_key(&self, other: &Self) -> (r: bool)
        ensures
            r == (*self == *other),
    ;
}

impl TableKey for [u8; 32] {
    fn same_key(&self, other: &Self) -> (r: bool) {
        bytes32_eq(self, other)
    }
}

impl TableKey for Addr {
    fn same_key(&self, other: &Self) -> (r: bool) {
        self.kind == other.kind && bytes32_eq(&self.key, &other.key)
    }
}

/// A finite map held as a list of entries with distinct keys.
pub struct Table<K: TableKey, V: Copy> {
    entries: Vec<(K, V)>,
}

pub open spec fn entry_index_of<K, V>(s: Seq<(K, V)>, k: K) -> int {
    choose|i: int| 0 <= i < s.len() && s[i].0 == k
}

pub open spec fn entries_have<K, V>(s: Seq<(K, V)>, k: K) -> bool {
    exists|i: int| 0 <= i < s.len() && s[i].0 == k
}

pub open spec fn entries_map<K, V>(s: Seq<(K, V)>) -> Map<K, V> {
    Map::new(|k: K| entries_have(s, k), |k: K| s[entry_index_of(s, k)].1)
}

pub open spec fn keys_distinct<K, V>(s: Seq<(K, V)>) -> bool {
    forall|i: int, j: int| 0 <= i < s.len() && 0 <= j < s.len() && i != j ==> s[i].0 != s[j].0
}

/// With distinct keys, the entry at index `i` is the one the map reports.
pub proof fn lemma_entries_map_at<K, V>(s: Seq<(K, V)>, i: int)
    requires
        keys_distinct(s),
        0 <= i < s.len(),
    ensures
        entries_map(s).contains_key(s[i].0),
        entries_map(s)[s[i].0] == s[i].1,
{
    assert(entries_have(s, s[i].0));
    let j = entry_index_of(s, s[i].0);
    assert(s[j].0 == s[i].0);
}

impl<K: TableKey, V: Copy> Table<K, V> {
    /// Keys are distinct.
    #[verifier::type_invariant]
    pub closed spec fn wf(&self) -> bool {
        keys_distinct(self.entries@)
    }

    pub closed spec fn view(&self) -> Map<K, V> {
        entries_map(self.entries@)
    }

    pub fn new() -> (t: Self)
        ensures
            t@ == Map::<K, V>::empty(),
    {
        let t = Table { entries: Vec::new() };
        assert(t@ =~= Map::<K, V>::empty());
        t
    }

    fn find(&self, k: &K) -> (r: Option<usize>)
        ensures
            match r {
                Some(i) => i < self.entries@.len() && self.entries@[i as int].0 == *k,
                None => !entries_have(self.entries@, *k),
            },
    {
        let mut i: usize = 0;
        while i < self.entries.len()
            invariant
                0 <= i <= self.entries@.len(),
                forall|j: int| 0 <= j < i ==> self.entries@[j].0 != *k,
            decreases self.entries@.len() - i,
        {
            if self.entries[i].0.same_key(k) {
                return Some(i);
            }
            i = i + 1;
        }
        None
    }

    pub fn contains_key(&self, k: &K) -> (r: bool)
        ensures
            r == self@.contains_key(*k),
    {
        self.find(k).is_some()
    }

    pub fn get(&self, k: &K) -> (r: Option<V>)
        ensures
            r == self@.get(*k),
    {
        proof {
            use_type_invariant(self);
        }
        match self.find(k) {
            Some(i) => {
                proof {
                    lemma_entries_map_at(self.entries@, i as int);
                }
                Some(self.entries[i].1)
            },
            None => None,
        }
    }

    pub fn insert(&mut self, k: K, v: V)
        ensures
            final(self)@ == old(self)@.insert(k, v),
    {
        proof {
            use_type_invariant(&*self);
        }
        let found = self.find(&k);
        let mut entries: Vec<(K, V)> = Vec::new();
        std::mem::swap(&mut entries, &mut self.entries);
        let ghost s0 = entries@;
        assert(keys_distinct(s0));
        match found {
            Some(i) => {
                entries.set(i, (k, v));
                let ghost s1 = entries@;
                assert(keys_distinct(s1)) by {
                    assert forall|a: int, b: int|
                        0 <= a < s1.len() && 0 <= b < s1.len() && a != b implies s1[a].0 != s1[b].0 by {
                        assert(s0[a].0 != s0[b].0);
                    }
                }
                assert forall|k2: K| #[trigger] entries_have(s1, k2) == entries_have(s0, k2) by {
                    if entries_have(s0, k2) {
                        let j = entry_index_of(s0, k2);
                        assert(s1[j].0 == k2);
                    }
                    if entries_have(s1, k2) {
                        let j = entry_index_of(s1, k2);
                        assert(s0[j].0 == k2);
                    }
                }
                assert forall|k2: K| #[trigger] entries_have(s1, k2) implies entries_map(s1)[k2]
                    == entries_map(s0).insert(k, v)[k2] by {
                    let j = entry_index_of(s1, k2);
                    if k2 == k {
                        assert(j == i);
                    } else {
                        lemma_entries_map_at(s0, j);
                    }
                }
                assert(entries_map(s1) =~= entries_map(s0).insert(k, v));
            },
            None => {
                entries.push((k, v));
                let ghost s1 = entries@;
                assert(keys_distinct(s1)) by {
                    assert forall|a: int, b: int|
                        0 <= a < s1.len() && 0 <= b < s1.len() && a != b implies s1[a].0 != s1[b].0 by {
                        if a < s0.len() && b < s0.len() {
                            assert(s0[a].0 != s0[b].0);
                        } else if a == s0.len() {
                            assert(s0[b].0 == s1[b].0);
                        } else {
                            assert(s0[a].0 == s1[a].0);
                        }
                    }
                }
                assert forall|k2: K| #[trigger] entries_have(s1, k2) == (entries_have(s0, k2) || k2 == k) by {
                    if entries_have(s0, k2) {
                        let j = entry_index_of(s0, k2);
                        assert(s1[j].0 == k2);
                    }
                    if k2 == k {
                        assert(s1[s0.len() as int].0 == k2);
                    }
                    if entries_have(s1, k2) {
                        let j = entry_index_of(s1, k2);
                        if j < s0.len() {
                            assert(s0[j].0 == k2);
                        }
                    }
                }
                assert forall|k2: K| #[trigger] entries_have(s1, k2) implies entries_map(s1)[k2]
                    == entries_map(s0).insert(k, v)[k2] by {
                    let j = entry_index_of(s1, k2);
                    if k2 == k {
                        lemma_entries_map_at(s1, s0.len() as int);
                    } else {
                        assert(j < s0.len());
                        assert(s0[j] == s1[j]);
                        lemma_entries_map_at(s0, j);
                    }
                }
                assert(entries_map(s1) =~= entries_map(s0).insert(k, v));
            },
        }
        self.entries = entries;
    }

    pub fn remove(&mut self, k: &K)
        ensures
            final(self)@ == old(self)@.remove(*k),
    {
        proof {
            use_type_invariant(&*self);
        }
        let found = self.find(k);
        let mut entries: Vec<(K, V)> = Vec::new();
        std::mem::swap(&mut entries, &mut self.entries);
        let ghost s0 = entries@;
        assert(keys_distinct(s0));
        match found {
            Some(i) => {
                entries.remove(i);
                let ghost s1 = entries@;
                assert(s1 =~= s0.remove(i as int));
                assert(keys_distinct(s1)) by {
                    assert forall|a: int, b: int|
                        0 <= a < s1.len() && 0 <= b < s1.len() && a != b implies s1[a].0 != s1[b].0 by {
                        let a0 = if a < i { a } else { a + 1 };
                        let b0 = if b < i { b } else { b + 1 };
                        assert(s1[a] == s0[a0]);
                        assert(s1[b] == s0[b0]);
                        assert(s0[a0].0 != s0[b0].0);
                    }
                }
                assert forall|k2: K| #[trigger] entries_have(s1, k2) == (entries_have(s0, k2) && k2 != *k) by {
                    if entries_have(s1, k2) {
                        let j = entry_index_of(s1, k2);
                        let j0 = if j < i { j } else { j + 1 };
                        assert(s1[j] == s0[j0]);
                        assert(j0 != i);
                        assert(s0[j0].0 != s0[i as int].0);
                    }
                    if entries_have(s0, k2) && k2 != *k {
                        let j0 = entry_index_of(s0, k2);
                        assert(j0 != i);
                        let j = if j0 < i { j0 } else { j0 - 1 };
                        assert(s1[j] == s0[j0]);
                    }
                }
                assert forall|k2: K| #[trigger] entries_have(s1, k2) implies entries_map(s1)[k2]
                    == entries_map(s0)[k2] by {
                    let j = entry_index_of(s1, k2);
                    let j0 = if j < i { j } else { j + 1 };
                    assert(s1[j] == s0[j0]);
                    lemma_entries_map_at(s0, j0);
                }
                assert(entries_map(s1) =~= entries_map(s0).remove(*k));
            },
            None => {
                assert(entries_map(s0) =~= entries_map(s0).remove(*k));
            },
        }
        self.entries = entries;
    }
}

} // verus!
