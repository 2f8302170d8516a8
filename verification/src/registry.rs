//! The Trustline registry: an oracle allowlist and key → address records.
//!
//! Records are stored under the `keccak256` of the key's bytes. An
//! index keeps each key whose hash was ever set, in first-insertion order,
//! so that the live records can be listed.

use soroban_sdk::Env;
use vstd::prelude::*;

use crate::events::{
    RegistryAdminTransferred, RegistryInit, RegistryOracleUpdated, RegistryRecordRemoved,
    RegistryRecordSet,
};
use crate::hashing::{keccak256, spec_keccak256};
use crate::types::{copy_bytes, Addr, Table};

verus! {

/// Errors of the registry.
#[derive(Clone, Copy, Debug, PartialEq, Eq, Structural)]
pub enum Error {
    Unauthorized,
    EmptyKey,
}

pub open spec fn registry_error_code(e: Error) -> u32 {
    match e {
        Error::Unauthorized => 1,
        Error::EmptyKey => 2,
    }
}

impl Error {
    /// The contract error number under which the host reports this error.
    pub fn code(&self) -> (r: u32)
        ensures
            r == registry_error_code(*self),
    {
        match self {
            Error::Unauthorized => 1,
            Error::EmptyKey => 2,
        }
    }
}

/// The hash under which a record key is stored.
pub open spec fn key_hash(key: Seq<u8>) -> [u8; 32] {
    spec_keccak256(key)
}

/// The stored state of a registry.
pub struct RegistryState {
    pub admin: Addr,
    /// Approved oracles (stored as `true`).
    pub oracles: Table<Addr, bool>,
    /// Record addresses by key hash.
    pub records: Table<[u8; 32], Addr>,
    /// Every key whose hash was ever set, in first-insertion order.
    pub record_keys: Vec<Vec<u8>>,
    /// The key hashes present in `record_keys`.
    pub key_seen: Table<[u8; 32], bool>,
}

/// The mathematical value of a [`RegistryState`].
pub struct RegistryView {
    pub admin: Addr,
    pub oracles: Map<Addr, bool>,
    pub records: Map<[u8; 32], Addr>,
    pub record_keys: Seq<Seq<u8>>,
    pub key_seen: Map<[u8; 32], bool>,
}

/// Whether `h` is the hash of one of the indexed keys.
pub open spec fn indexed(keys: Seq<Seq<u8>>, h: [u8; 32]) -> bool {
    exists|i: int| 0 <= i < keys.len() && key_hash(#[trigger] keys[i]) == h
}

/// The registry's invariant: the index holds non-empty keys with distinct
/// hashes, `key_seen` is exactly the set of their hashes, and every record
/// is reachable through the index.
pub open spec fn registry_wf(v: RegistryView) -> bool {
    &&& forall|i: int| 0 <= i < v.record_keys.len() ==> (#[trigger] v.record_keys[i]).len() > 0
    &&& forall|i: int, j: int|
        0 <= i < v.record_keys.len() && 0 <= j < v.record_keys.len() && i != j ==> key_hash(
            #[trigger] v.record_keys[i],
        ) != key_hash(#[trigger] v.record_keys[j])
    &&& forall|h: [u8; 32]| #[trigger] v.key_seen.contains_key(h) <==> indexed(v.record_keys, h)
    &&& forall|h: [u8; 32]| #[trigger] v.records.contains_key(h) ==> v.key_seen.contains_key(h)
    &&& forall|h: [u8; 32]| #[trigger] v.key_seen.contains_key(h) ==> v.key_seen[h]
}

/// Whether `oracle` may publish proofs.
pub open spec fn oracle_approved(v: RegistryView, oracle: Addr) -> bool {
    v.oracles.contains_key(oracle) && v.oracles[oracle]
}

/// The record for a key: none for the empty key.
pub open spec fn record_of(v: RegistryView, key: Seq<u8>) -> Option<Addr> {
    if key.len() == 0 {
        None
    } else {
        v.records.get(key_hash(key))
    }
}

/// The live records in index order: each indexed key whose hash has a record.
pub open spec fn live_records(records: Map<[u8; 32], Addr>, keys: Seq<Seq<u8>>) -> Seq<(Seq<u8>, Addr)>
    decreases keys.len(),
{
    if keys.len() == 0 {
        Seq::empty()
    } else {
        let prev = live_records(records, keys.drop_last());
        let k = keys.last();
        if records.contains_key(key_hash(k)) {
            prev.push((k, records[key_hash(k)]))
        } else {
            prev
        }
    }
}

/// The state after a registry is created.
pub open spec fn registry_init_view(admin: Addr) -> RegistryView {
    RegistryView {
        admin,
        oracles: Map::empty(),
        records: Map::empty(),
        record_keys: Seq::empty(),
        key_seen: Map::empty(),
    }
}

/// The index after setting a record under `key`: the key is appended when
/// its hash is new.
pub open spec fn index_after(v: RegistryView, key: Seq<u8>) -> Seq<Seq<u8>> {
    if v.key_seen.get(key_hash(key)) == Some(true) {
        v.record_keys
    } else {
        v.record_keys.push(key)
    }
}

/// The state after `set_record` with a non-empty key.
pub open spec fn set_record_next(v: RegistryView, key: Seq<u8>, addr: Addr) -> RegistryView {
    RegistryView {
        records: v.records.insert(key_hash(key), addr),
        record_keys: index_after(v, key),
        key_seen: v.key_seen.insert(key_hash(key), true),
        ..v
    }
}

/// The state after `set_oracle`.
pub open spec fn set_oracle_next(v: RegistryView, oracle: Addr, approved: bool) -> RegistryView {
    RegistryView {
        oracles: if approved { v.oracles.insert(oracle, true) } else { v.oracles.remove(oracle) },
        ..v
    }
}

/// The registry's version.
pub fn version() -> (r: u32)
    ensures
        r == 2,
{
    2
}

/// The hash under which `key` is stored: `keccak256` of its bytes.
pub fn hash_key(env: &Env, key: &Vec<u8>) -> (r: [u8; 32])
    ensures
        r == key_hash(key@),
{
    keccak256(env, key.as_slice())
}

fn key_is_empty(key: &Vec<u8>) -> (r: bool)
    ensures
        r == (key@.len() == 0),
{
    key.len() == 0
}

impl RegistryState {
    pub open spec fn view(&self) -> RegistryView {
        RegistryView {
            admin: self.admin,
            oracles: self.oracles@,
            records: self.records@,
            record_keys: self.record_keys@.map_values(|s: Vec<u8>| s@),
            key_seen: self.key_seen@,
        }
    }

    pub open spec fn wf(&self) -> bool {
        registry_wf(self@)
    }

    /// A registry administered by `admin`, with the event it publishes.
    pub fn new(admin: Addr) -> (r: (RegistryState, RegistryInit))
        ensures
            r.0.wf(),
            r.0@ == registry_init_view(admin),
            r.1 == (RegistryInit { admin }),
    {
        let state = RegistryState {
            admin,
            oracles: Table::new(),
            records: Table::new(),
            record_keys: Vec::new(),
            key_seen: Table::new(),
        };
        assert(state@.record_keys =~= Seq::<Seq<u8>>::empty());
        (state, RegistryInit { admin })
    }

    /// The admin: the role that must authorise every change to the registry
    /// (the host traps a call it did not authorise).
    pub fn admin(&self) -> (r: Addr)
        ensures
            r == self.admin,
    {
        self.admin
    }

    /// Hands the admin role to `new_admin`.
    pub fn transfer_admin(&mut self, new_admin: Addr) -> (r: RegistryAdminTransferred)
        ensures
            old(self).wf() ==> final(self).wf(),
            final(self)@ == (RegistryView { admin: new_admin, ..old(self)@ }),
            r == (RegistryAdminTransferred { old_admin: old(self).admin, new_admin }),
    {
        let old_admin = self.admin;
        self.admin = new_admin;
        RegistryAdminTransferred { old_admin, new_admin }
    }

    /// Grants (`approved`) or revokes oracle publishing rights.
    pub fn set_oracle(&mut self, oracle: Addr, approved: bool) -> (r: RegistryOracleUpdated)
        ensures
            old(self).wf() ==> final(self).wf(),
            final(self)@ == set_oracle_next(old(self)@, oracle, approved),
            r == (RegistryOracleUpdated { oracle, approved }),
    {
        if approved {
            self.oracles.insert(oracle, true);
        } else {
            self.oracles.remove(&oracle);
        }
        RegistryOracleUpdated { oracle, approved }
    }

    /// Whether `oracle` may publish proofs.
    pub fn is_oracle(&self, oracle: &Addr) -> (r: bool)
        ensures
            r == oracle_approved(self@, *oracle),
    {
        match self.oracles.get(oracle) {
            Some(b) => b,
            None => false,
        }
    }

    /// Appends `key` to the index when its hash is new.
    fn index_key_if_new(&mut self, key: &Vec<u8>, hashed: &[u8; 32])
        requires
            key@.len() > 0,
            *hashed == key_hash(key@),
        ensures
            final(self).oracles == old(self).oracles,
            final(self).records == old(self).records,
            final(self).admin == old(self).admin,
            final(self)@.record_keys == index_after(old(self)@, key@),
            final(self)@.key_seen == old(self)@.key_seen.insert(*hashed, true),
    {
        let already = match self.key_seen.get(hashed) {
            Some(b) => b,
            None => false,
        };
        if already {
            assert(self@.key_seen.insert(*hashed, true) =~= self@.key_seen);
            return;
        }
        let ghost keys0 = self@.record_keys;
        self.record_keys.push(copy_bytes(key));
        self.key_seen.insert(*hashed, true);
        assert(self@.record_keys =~= keys0.push(key@));
    }

    /// Registers `addr` under `key`. The empty key is refused and leaves the
    /// state unchanged.
    pub fn set_record(&mut self, env: &Env, key: Vec<u8>, addr: Addr) -> (r: Result<
        RegistryRecordSet,
        Error,
    >)
        ensures
            old(self).wf() ==> final(self).wf(),
            key@.len() == 0 ==> r == Err::<RegistryRecordSet, Error>(Error::EmptyKey) && final(self)@
                == old(self)@,
            key@.len() > 0 ==> {
                &&& final(self)@ == set_record_next(old(self)@, key@, addr)
                &&& r matches Ok(e) && e.key@ == key@ && e.hashed == key_hash(key@) && e.addr == addr
            },
    {
        if key_is_empty(&key) {
            return Err(Error::EmptyKey);
        }
        let hashed = hash_key(env, &key);
        proof {
            if old(self).wf() {
                lemma_set_record_wf(self@, key@, addr);
            }
        }
        self.index_key_if_new(&key, &hashed);
        self.records.insert(hashed, addr);
        assert(self@ == set_record_next(old(self)@, key@, addr));
        Ok(RegistryRecordSet { key, hashed, addr })
    }

    /// The address registered under `key`; none for the empty key.
    pub fn get_record(&self, env: &Env, key: &Vec<u8>) -> (r: Option<Addr>)
        ensures
            r == record_of(self@, key@),
    {
        if key_is_empty(key) {
            return None;
        }
        let hashed = hash_key(env, key);
        self.records.get(&hashed)
    }

    /// Clears the record under `key`; the key stays in the index. The empty
    /// key is refused and leaves the state unchanged.
    pub fn remove_record(&mut self, env: &Env, key: Vec<u8>) -> (r: Result<
        RegistryRecordRemoved,
        Error,
    >)
        ensures
            old(self).wf() ==> final(self).wf(),
            key@.len() == 0 ==> r == Err::<RegistryRecordRemoved, Error>(Error::EmptyKey) && final(self)@
                == old(self)@,
            key@.len() > 0 ==> {
                &&& final(self)@ == (RegistryView {
                    records: old(self)@.records.remove(key_hash(key@)),
                    ..old(self)@
                })
                &&& r matches Ok(e) && e.key@ == key@ && e.hashed == key_hash(key@)
            },
    {
        if key_is_empty(&key) {
            return Err(Error::EmptyKey);
        }
        let hashed = hash_key(env, &key);
        self.records.remove(&hashed);
        Ok(RegistryRecordRemoved { key, hashed })
    }

    /// All live records, as parallel lists of keys and addresses in index
    /// order; keys whose record was removed are skipped.
    pub fn get_all_records(&self, env: &Env) -> (r: (Vec<Vec<u8>>, Vec<Addr>))
        ensures
            r.0@.len() == r.1@.len(),
            r.0@.len() == live_records(self@.records, self@.record_keys).len(),
            forall|i: int|
                0 <= i < r.0@.len() ==> (#[trigger] r.0@[i])@ == live_records(
                    self@.records,
                    self@.record_keys,
                )[i].0 && r.1@[i] == live_records(self@.records, self@.record_keys)[i].1,
    {
        let mut keys: Vec<Vec<u8>> = Vec::new();
        let mut addrs: Vec<Addr> = Vec::new();
        let ghost all = self@.record_keys;
        let ghost recs = self@.records;
        let mut i: usize = 0;
        while i < self.record_keys.len()
            invariant
                0 <= i <= self.record_keys@.len(),
                all == self@.record_keys,
                recs == self@.records,
                keys@.len() == addrs@.len(),
                keys@.len() == live_records(recs, all.take(i as int)).len(),
                forall|j: int|
                    0 <= j < keys@.len() ==> (#[trigger] keys@[j])@ == live_records(
                        recs,
                        all.take(i as int),
                    )[j].0 && addrs@[j] == live_records(recs, all.take(i as int))[j].1,
            decreases self.record_keys@.len() - i,
        {
            let key = &self.record_keys[i];
            let hashed = hash_key(env, key);
            let ghost prev = live_records(recs, all.take(i as int));
            let ghost next_keys = all.take(i + 1);
            assert(next_keys.drop_last() =~= all.take(i as int));
            assert(next_keys.last() == key@);
            let ghost keys0 = keys@;
            let ghost addrs0 = addrs@;
            match self.records.get(&hashed) {
                Some(addr) => {
                    keys.push(copy_bytes(key));
                    addrs.push(addr);
                    assert(live_records(recs, next_keys) == prev.push((key@, addr)));
                    assert forall|j: int| 0 <= j < keys@.len() implies (#[trigger] keys@[j])@
                        == live_records(recs, next_keys)[j].0 && addrs@[j] == live_records(
                        recs,
                        next_keys,
                    )[j].1 by {
                        if j < keys0.len() {
                            assert(keys@[j] == keys0[j]);
                            assert(addrs@[j] == addrs0[j]);
                        }
                    }
                },
                None => {
                    assert(live_records(recs, next_keys) == prev);
                },
            }
            i = i + 1;
        }
        assert(all.take(all.len() as int) =~= all);
        (keys, addrs)
    }
}

/// Setting a record under a non-empty key keeps the registry's invariant.
pub proof fn lemma_set_record_wf(v: RegistryView, key: Seq<u8>, addr: Addr)
    requires
        registry_wf(v),
        key.len() > 0,
    ensures
        registry_wf(set_record_next(v, key, addr)),
{
    let h = key_hash(key);
    let n = set_record_next(v, key, addr);
    if v.key_seen.contains_key(h) {
        assert(v.key_seen[h]);
        assert(n.record_keys == v.record_keys);
        assert forall|h2: [u8; 32]| #[trigger] n.key_seen.contains_key(h2) <==> indexed(n.record_keys, h2) by {
            assert(v.key_seen.contains_key(h2) <==> indexed(v.record_keys, h2));
        }
    } else {
        let ks = v.record_keys;
        let ks2 = ks.push(key);
        assert(n.record_keys == ks2);
        assert(!indexed(ks, h));
        assert forall|i: int| 0 <= i < ks2.len() implies (#[trigger] ks2[i]).len() > 0 by {
            if i < ks.len() {
                assert(ks2[i] == ks[i]);
            }
        }
        assert forall|i: int, j: int|
            0 <= i < ks2.len() && 0 <= j < ks2.len() && i != j implies key_hash(#[trigger] ks2[i])
            != key_hash(#[trigger] ks2[j]) by {
            if i < ks.len() && j < ks.len() {
                assert(ks2[i] == ks[i] && ks2[j] == ks[j]);
            } else if i == ks.len() {
                assert(ks2[j] == ks[j]);
                if key_hash(ks[j]) == h {
                    assert(indexed(ks, h));
                }
            } else {
                assert(ks2[i] == ks[i]);
                if key_hash(ks[i]) == h {
                    assert(indexed(ks, h));
                }
            }
        }
        assert forall|h2: [u8; 32]| #[trigger] n.key_seen.contains_key(h2) <==> indexed(ks2, h2) by {
            if indexed(ks, h2) {
                let i = choose|i: int| 0 <= i < ks.len() && key_hash(#[trigger] ks[i]) == h2;
                assert(ks2[i] == ks[i]);
            }
            if h2 == h {
                assert(ks2[ks.len() as int] == key);
            }
            if indexed(ks2, h2) {
                let i = choose|i: int| 0 <= i < ks2.len() && key_hash(#[trigger] ks2[i]) == h2;
                if i < ks.len() {
                    assert(ks2[i] == ks[i]);
                }
            }
            assert(v.key_seen.contains_key(h2) <==> indexed(ks, h2));
        }
    }
}

/// Granting or revoking an oracle is what `is_oracle` then reports, and
/// other oracles keep their standing.
pub proof fn lemma_oracle_roundtrip(v: RegistryView, oracle: Addr, other: Addr, approved: bool)
    requires
        other != oracle,
    ensures
        oracle_approved(set_oracle_next(v, oracle, approved), oracle) == approved,
        oracle_approved(set_oracle_next(v, oracle, approved), other) == oracle_approved(v, other),
{
}

/// A record set under a non-empty key is what `get_record` then returns;
/// keys of other hashes keep their records. Removing it leaves none.
pub proof fn lemma_record_roundtrip(v: RegistryView, key: Seq<u8>, addr: Addr, other: Seq<u8>)
    requires
        key.len() > 0,
        key_hash(other) != key_hash(key),
    ensures
        record_of(set_record_next(v, key, addr), key) == Some(addr),
        record_of(set_record_next(v, key, addr), other) == record_of(v, other),
        record_of(RegistryView { records: v.records.remove(key_hash(key)), ..v }, key) is None,
{
}

/// Every listed record is live: its key is non-empty and resolves to the
/// listed address.
pub proof fn lemma_listing_sound(v: RegistryView, i: int)
    requires
        registry_wf(v),
        0 <= i < live_records(v.records, v.record_keys).len(),
    ensures
        live_records(v.records, v.record_keys)[i].0.len() > 0,
        record_of(v, live_records(v.records, v.record_keys)[i].0) == Some(
            live_records(v.records, v.record_keys)[i].1,
        ),
{
    lemma_live_records_from_index(v.records, v.record_keys, i);
}

/// Each entry of the listing is an indexed key with a record.
proof fn lemma_live_records_from_index(
    records: Map<[u8; 32], Addr>,
    keys: Seq<Seq<u8>>,
    i: int,
)
    requires
        0 <= i < live_records(records, keys).len(),
    ensures
        exists|j: int| 0 <= j < keys.len() && keys[j] == live_records(records, keys)[i].0,
        records.contains_key(key_hash(live_records(records, keys)[i].0)),
        records[key_hash(live_records(records, keys)[i].0)] == live_records(records, keys)[i].1,
    decreases keys.len(),
{
    let prev = live_records(records, keys.drop_last());
    if i < prev.len() {
        lemma_live_records_from_index(records, keys.drop_last(), i);
        let j = choose|j: int| 0 <= j < keys.drop_last().len() && keys.drop_last()[j] == prev[i].0;
        assert(keys[j] == keys.drop_last()[j]);
    } else {
        assert(keys[keys.len() - 1] == keys.last());
    }
}

/// An indexed key with a record appears in the listing.
proof fn lemma_live_records_complete(records: Map<[u8; 32], Addr>, keys: Seq<Seq<u8>>, j: int)
    requires
        0 <= j < keys.len(),
        records.contains_key(key_hash(keys[j])),
    ensures
        exists|i: int|
            0 <= i < live_records(records, keys).len() && (#[trigger] live_records(records, keys)[i]).0
                == keys[j],
    decreases keys.len(),
{
    let prev = live_records(records, keys.drop_last());
    if j < keys.len() - 1 {
        assert(keys.drop_last()[j] == keys[j]);
        lemma_live_records_complete(records, keys.drop_last(), j);
        let i = choose|i: int| 0 <= i < prev.len() && (#[trigger] prev[i]).0 == keys.drop_last()[j];
        assert(live_records(records, keys)[i] == prev[i]);
    } else {
        assert(live_records(records, keys)[prev.len() as int].0 == keys[j]);
    }
}

/// Every live record is listed: a non-empty key that resolves to an
/// address has a listed key of the same hash, listed with that address.
pub proof fn lemma_listing_complete(v: RegistryView, key: Seq<u8>)
    requires
        registry_wf(v),
        record_of(v, key) is Some,
    ensures
        exists|i: int|
            0 <= i < live_records(v.records, v.record_keys).len() && key_hash(
                (#[trigger] live_records(v.records, v.record_keys)[i]).0,
            ) == key_hash(key) && live_records(v.records, v.record_keys)[i].1 == record_of(
                v,
                key,
            ).unwrap(),
{
    let h = key_hash(key);
    assert(v.key_seen.contains_key(h));
    assert(indexed(v.record_keys, h));
    let j = choose|j: int| 0 <= j < v.record_keys.len() && key_hash(#[trigger] v.record_keys[j]) == h;
    lemma_live_records_complete(v.records, v.record_keys, j);
    let i = choose|i: int|
        0 <= i < live_records(v.records, v.record_keys).len() && (#[trigger] live_records(
            v.records,
            v.record_keys,
        )[i]).0 == v.record_keys[j];
    lemma_live_records_from_index(v.records, v.record_keys, i);
}

/// The listing never repeats a key: listed keys have distinct hashes, so
/// setting a record again under the same key does not list it twice.
pub proof fn lemma_listing_distinct(v: RegistryView, i: int, j: int)
    requires
        registry_wf(v),
        0 <= i < live_records(v.records, v.record_keys).len(),
        0 <= j < live_records(v.records, v.record_keys).len(),
        i != j,
    ensures
        key_hash(live_records(v.records, v.record_keys)[i].0) != key_hash(
            live_records(v.records, v.record_keys)[j].0,
        ),
{
    lemma_live_records_index_order(v.records, v.record_keys, i, j);
}

/// Distinct listing positions come from distinct index positions.
proof fn lemma_live_records_index_order(
    records: Map<[u8; 32], Addr>,
    keys: Seq<Seq<u8>>,
    i: int,
    j: int,
)
    requires
        0 <= i < j < live_records(records, keys).len() || 0 <= j < i < live_records(records, keys).len(),
        forall|a: int, b: int|
            0 <= a < keys.len() && 0 <= b < keys.len() && a != b ==> key_hash(#[trigger] keys[a])
                != key_hash(#[trigger] keys[b]),
    ensures
        key_hash(live_records(records, keys)[i].0) != key_hash(live_records(records, keys)[j].0),
    decreases keys.len(),
{
    let ks = keys.drop_last();
    let prev = live_records(records, ks);
    assert forall|a: int, b: int|
        0 <= a < ks.len() && 0 <= b < ks.len() && a != b implies key_hash(#[trigger] ks[a]) != key_hash(
            #[trigger] ks[b],
        ) by {
        assert(ks[a] == keys[a] && ks[b] == keys[b]);
    }
    if i < prev.len() && j < prev.len() {
        lemma_live_records_index_order(records, ks, i, j);
    } else {
        let (p, q) = if i < j { (i, j) } else { (j, i) };
        assert(q == prev.len());
        assert(live_records(records, keys)[q].0 == keys.last());
        lemma_live_records_from_index(records, ks, p);
        let a = choose|a: int| 0 <= a < ks.len() && ks[a] == prev[p].0;
        assert(keys[a] == ks[a]);
        assert(keys[keys.len() - 1] == keys.last());
        assert(key_hash(keys[a]) != key_hash(keys[keys.len() - 1]));
    }
}

} // verus!
