//! The reference sanctions list: an owner-controlled set of sanctioned
//! addresses answering `is_sanctioned`.

use vstd::prelude::*;

use crate::events::{OwnerUpdated, SanctionUpdated};
use crate::types::{Addr, Table};

verus! {

/// The stored state of a sanctions list.
pub struct SanctionsListState {
    pub owner: Addr,
    /// Sanctioned addresses (stored as `true`).
    pub sanctioned: Table<Addr, bool>,
}

/// The mathematical value of a [`SanctionsListState`].
pub struct SanctionsView {
    pub owner: Addr,
    pub sanctioned: Map<Addr, bool>,
}

/// Whether the list flags `addr`.
pub open spec fn flags(v: SanctionsView, addr: Addr) -> bool {
    v.sanctioned.contains_key(addr) && v.sanctioned[addr]
}

/// The state after marking (`sanctioned`) or clearing `addr`.
pub open spec fn set_sanction_next(v: SanctionsView, addr: Addr, sanctioned: bool) -> SanctionsView {
    SanctionsView {
        sanctioned: if sanctioned {
            v.sanctioned.insert(addr, true)
        } else {
            v.sanctioned.remove(addr)
        },
        ..v
    }
}

impl SanctionsListState {
    pub open spec fn view(&self) -> SanctionsView {
        SanctionsView { owner: self.owner, sanctioned: self.sanctioned@ }
    }

    /// An empty list owned by `owner`.
    pub fn new(owner: Addr) -> (r: SanctionsListState)
        ensures
            r@ == (SanctionsView { owner, sanctioned: Map::empty() }),
    {
        SanctionsListState { owner, sanctioned: Table::new() }
    }

    /// The owner: the role that must authorise every change to the list
    /// (the host traps a call it did not authorise).
    pub fn owner(&self) -> (r: Addr)
        ensures
            r == self.owner,
    {
        self.owner
    }

    /// Hands the list to `new_owner`.
    pub fn set_owner(&mut self, new_owner: Addr) -> (r: OwnerUpdated)
        ensures
            final(self)@ == (SanctionsView { owner: new_owner, ..old(self)@ }),
            r == (OwnerUpdated { old_owner: old(self).owner, new_owner }),
    {
        let old_owner = self.owner;
        self.owner = new_owner;
        OwnerUpdated { old_owner, new_owner }
    }

    /// Marks (`sanctioned`) or clears `addr`.
    pub fn set_sanction(&mut self, addr: Addr, sanctioned: bool) -> (r: SanctionUpdated)
        ensures
            final(self)@ == set_sanction_next(old(self)@, addr, sanctioned),
            r == (SanctionUpdated { addr, sanctioned }),
    {
        if sanctioned {
            self.sanctioned.insert(addr, true);
        } else {
            self.sanctioned.remove(&addr);
        }
        SanctionUpdated { addr, sanctioned }
    }

    /// Whether `addr` is sanctioned.
    pub fn is_sanctioned(&self, addr: &Addr) -> (r: bool)
        ensures
            r == flags(self@, *addr),
    {
        match self.sanctioned.get(addr) {
            Some(b) => b,
            None => false,
        }
    }
}

/// Marking then reading an address gives back the mark, and other
/// addresses keep theirs.
pub proof fn lemma_sanction_roundtrip(v: SanctionsView, addr: Addr, other: Addr, sanctioned: bool)
    requires
        other != addr,
    ensures
        flags(set_sanction_next(v, addr, sanctioned), addr) == sanctioned,
        flags(set_sanction_next(v, addr, sanctioned), other) == flags(v, other),
{
}

} // verus!
