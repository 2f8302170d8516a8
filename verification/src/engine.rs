//! The validation engine: oracle-published proofs, their single-use
//! consumption, sanctions screening, and the engine's configuration.
//!
//! The state of an engine instance is an [`EngineState`]; each operation is
//! a method whose contract gives the next state and the result in terms of
//! the spec functions of this module. Reads of the ledger clock, of the
//! registry and of the sanctions list reach the library as arguments:
//! `now` is the ledger timestamp, `oracle_approved` the registry's answer to
//! `is_oracle`, `resolved` its answer to `get_record`, and `flagged` the
//! screened addresses that the sanctions list reports as sanctioned.

use soroban_sdk::Env;
use trustline_sdk::types::ValidationMode;
use vstd::prelude::*;
use vstd::std_specs::convert::FromSpecImpl;

use crate::events::{ConfigInit, ConfigUpdated, TxAdded, TxApproval, TxExecuted, TxPending};
use crate::hashing::{dapp_mode, final_tx_id, intent_id, spec_final_tx_id, spec_intent_id};
use crate::ttl::{proof_ttl_ledgers, spec_proof_ttl_ledgers};
use crate::types::{copy_bytes, Addr, Table};

verus! {

/// Transaction validation states.
#[derive(Clone, Copy, Debug, PartialEq, Eq, Structural)]
pub enum TxState {
    Approved,
    Rejected,
    Expired,
    Pending,
    Unknown,
}

pub open spec fn tx_state_code(s: TxState) -> u32 {
    match s {
        TxState::Approved => 0,
        TxState::Rejected => 1,
        TxState::Expired => 2,
        TxState::Pending => 3,
        TxState::Unknown => 4,
    }
}

impl From<TxState> for u32 {
    fn from(value: TxState) -> (r: u32) {
        match value {
            TxState::Approved => 0,
            TxState::Rejected => 1,
            TxState::Expired => 2,
            TxState::Pending => 3,
            TxState::Unknown => 4,
        }
    }
}

impl FromSpecImpl<TxState> for u32 {
    open spec fn obeys_from_spec() -> bool {
        true
    }

    open spec fn from_spec(v: TxState) -> u32 {
        tx_state_code(v)
    }
}

/// What the engine stores for a registered proof.
#[derive(Clone, Copy, Debug, PartialEq, Eq, Structural)]
pub struct TxMetadata {
    pub created_at: u64,
    pub valid_until: u64,
    pub state: TxState,
}

/// Errors of the validation engine.
#[derive(Clone, Copy, Debug, PartialEq, Eq, Structural)]
pub enum Error {
    Unauthorized,
    ValidationExpired,
    ValidationTooEarly,
    AlreadySubmitted,
    NotApproved,
    Sanctioned,
    NotPending,
    SanctionsKeyUnknown,
}

pub open spec fn error_code(e: Error) -> u32 {
    match e {
        Error::Unauthorized => 1,
        Error::ValidationExpired => 2,
        Error::ValidationTooEarly => 3,
        Error::AlreadySubmitted => 4,
        Error::NotApproved => 5,
        Error::Sanctioned => 6,
        Error::NotPending => 7,
        Error::SanctionsKeyUnknown => 8,
    }
}

impl Error {
    /// The contract error number under which the host reports this error.
    pub fn code(&self) -> (r: u32)
        ensures
            r == error_code(*self),
    {
        match self {
            Error::Unauthorized => 1,
            Error::ValidationExpired => 2,
            Error::ValidationTooEarly => 3,
            Error::AlreadySubmitted => 4,
            Error::NotApproved => 5,
            Error::Sanctioned => 6,
            Error::NotPending => 7,
            Error::SanctionsKeyUnknown => 8,
        }
    }
}

/// The stored state of one engine instance.
pub struct EngineState {
    admin: Addr,
    registry: Addr,
    auditor: Addr,
    /// Absent reads as enabled.
    trustline_oracle_enabled: Option<bool>,
    /// Absent reads as disabled.
    sanctions_oracle_enabled: Option<bool>,
    sanctions_list: Option<Addr>,
    sanctions_key: Option<Vec<u8>>,
    auto_validity_secs: u64,
    manual_validity_secs: u64,
    max_skew_secs: u64,
    /// Registered proofs by intent id.
    proofs: Table<[u8; 32], TxMetadata>,
}

/// The mathematical value of an [`EngineState`].
pub struct EngineView {
    pub admin: Addr,
    pub registry: Addr,
    pub auditor: Addr,
    pub trustline_oracle_enabled: Option<bool>,
    pub sanctions_oracle_enabled: Option<bool>,
    pub sanctions_list: Option<Addr>,
    pub sanctions_key: Option<Seq<u8>>,
    pub auto_validity_secs: u64,
    pub manual_validity_secs: u64,
    pub max_skew_secs: u64,
    pub proofs: Map<[u8; 32], TxMetadata>,
}

pub open spec fn key_view(k: Option<Vec<u8>>) -> Option<Seq<u8>> {
    match k {
        Some(s) => Some(s@),
        None => None,
    }
}

/// Whether the Trustline oracle gate is on.
pub open spec fn trustline_on(v: EngineView) -> bool {
    match v.trustline_oracle_enabled {
        Some(b) => b,
        None => true,
    }
}

/// Whether sanctions screening is on.
pub open spec fn sanctions_on(v: EngineView) -> bool {
    match v.sanctions_oracle_enabled {
        Some(b) => b,
        None => false,
    }
}

/// The engine's invariant: screening is only on with a list to ask.
pub open spec fn engine_wf(v: EngineView) -> bool {
    sanctions_on(v) ==> v.sanctions_list is Some
}

/// The state after `init`.
pub open spec fn init_view(
    admin: Addr,
    registry: Addr,
    auto_validity_secs: u64,
    manual_validity_secs: u64,
    max_skew_secs: u64,
) -> EngineView {
    EngineView {
        admin,
        registry,
        auditor: admin,
        trustline_oracle_enabled: Some(true),
        sanctions_oracle_enabled: Some(false),
        sanctions_list: None,
        sanctions_key: None,
        auto_validity_secs,
        manual_validity_secs,
        max_skew_secs,
        proofs: Map::empty(),
    }
}

/// Whether the sender or one of the addresses is among the flagged ones.
pub open spec fn any_flagged(sender: Addr, addresses: Seq<Addr>, flagged: Seq<Addr>) -> bool {
    flagged.contains(sender) || exists|i: int| 0 <= i < addresses.len() && flagged.contains(#[trigger] addresses[i])
}

/// The verdict of sanctions screening.
pub open spec fn sanctions_verdict(
    v: EngineView,
    sender: Addr,
    addresses: Seq<Addr>,
    flagged: Seq<Addr>,
) -> TxState {
    if sanctions_on(v) && any_flagged(sender, addresses, flagged) {
        TxState::Rejected
    } else {
        TxState::Approved
    }
}

/// The state of the proof for `id` at time `now`, as the oracle gate sees it.
pub open spec fn oracle_state(v: EngineView, id: [u8; 32], now: u64) -> TxState {
    if !trustline_on(v) {
        TxState::Approved
    } else if !v.proofs.contains_key(id) {
        TxState::Unknown
    } else if v.proofs[id].state != TxState::Approved {
        v.proofs[id].state
    } else if v.proofs[id].valid_until > now {
        TxState::Approved
    } else {
        TxState::Expired
    }
}

/// The state reported for an intent: a sanctions rejection first, then the
/// oracle's state.
pub open spec fn tx_state(
    v: EngineView,
    sender: Addr,
    id: [u8; 32],
    addresses: Seq<Addr>,
    flagged: Seq<Addr>,
    now: u64,
) -> TxState {
    if sanctions_verdict(v, sender, addresses, flagged) == TxState::Rejected {
        TxState::Rejected
    } else {
        oracle_state(v, id, now)
    }
}

/// The result of consuming the proof for `id`: the final id of the
/// execution event, or the error.
pub open spec fn consume_result(v: EngineView, id: [u8; 32], now: u64) -> Result<[u8; 32], Error> {
    if !trustline_on(v) {
        Ok(spec_final_tx_id(id, 0))
    } else if oracle_state(v, id, now) != TxState::Approved {
        Err(Error::NotApproved)
    } else {
        Ok(spec_final_tx_id(id, v.proofs[id].created_at))
    }
}

/// The state after consuming the proof for `id`.
pub open spec fn consume_next(v: EngineView, id: [u8; 32], now: u64) -> EngineView {
    if trustline_on(v) && oracle_state(v, id, now) == TxState::Approved {
        EngineView { proofs: v.proofs.remove(id), ..v }
    } else {
        v
    }
}

/// The result of screening and then consuming.
pub open spec fn validate_result(
    v: EngineView,
    sender: Addr,
    id: [u8; 32],
    addresses: Seq<Addr>,
    flagged: Seq<Addr>,
    now: u64,
) -> Result<[u8; 32], Error> {
    if sanctions_verdict(v, sender, addresses, flagged) == TxState::Rejected {
        Err(Error::Sanctioned)
    } else {
        consume_result(v, id, now)
    }
}

/// The state after screening and then consuming.
pub open spec fn validate_next(
    v: EngineView,
    sender: Addr,
    id: [u8; 32],
    addresses: Seq<Addr>,
    flagged: Seq<Addr>,
    now: u64,
) -> EngineView {
    if sanctions_verdict(v, sender, addresses, flagged) == TxState::Rejected {
        v
    } else {
        consume_next(v, id, now)
    }
}

/// An execution event agrees with a spec result.
pub open spec fn executed_as(r: Result<TxExecuted, Error>, s: Result<[u8; 32], Error>) -> bool {
    match (r, s) {
        (Ok(e), Ok(f)) => e.final_id == f,
        (Err(a), Err(b)) => a == b,
        _ => false,
    }
}

/// The intent id of a call on the network with id `network_id`. Every
/// validation mode has code 0: `Dapp` is the only one.
pub open spec fn intent_of(
    network_id: [u8; 32],
    sender: Addr,
    protocol: Addr,
    value: i128,
    data: Seq<u8>,
) -> [u8; 32] {
    spec_intent_id(network_id, 0u32, sender, protocol, value, data)
}

/// Enforcing the proof for `id` took `v` to `next` with the result `r`:
/// screening first, then single-use consumption.
pub open spec fn enforced(
    v: EngineView,
    next: EngineView,
    r: Result<TxExecuted, Error>,
    sender: Addr,
    id: [u8; 32],
    addresses: Seq<Addr>,
    flagged: Seq<Addr>,
    now: u64,
) -> bool {
    &&& executed_as(r, validate_result(v, sender, id, addresses, flagged, now))
    &&& next == validate_next(v, sender, id, addresses, flagged, now)
}

/// Why `add_tx` refuses a proof, if it does.
pub open spec fn add_tx_error(
    v: EngineView,
    id: [u8; 32],
    timestamp: u64,
    oracle_approved: bool,
    now: u64,
) -> Option<Error> {
    if !oracle_approved {
        Some(Error::Unauthorized)
    } else if timestamp.saturating_add(v.auto_validity_secs) <= now {
        Some(Error::ValidationExpired)
    } else if timestamp > now.saturating_add(v.max_skew_secs) {
        Some(Error::ValidationTooEarly)
    } else if v.proofs.contains_key(id) && v.proofs[id].created_at == timestamp {
        Some(Error::AlreadySubmitted)
    } else {
        None
    }
}

/// The metadata `add_tx` stores: pending for the auditor, or approved for
/// the automatic validity window.
pub open spec fn new_proof(v: EngineView, timestamp: u64, approval_required: bool) -> TxMetadata {
    if approval_required {
        TxMetadata { created_at: timestamp, valid_until: 0, state: TxState::Pending }
    } else {
        TxMetadata {
            created_at: timestamp,
            valid_until: timestamp.saturating_add(v.auto_validity_secs),
            state: TxState::Approved,
        }
    }
}

/// The state after a successful `add_tx`.
pub open spec fn add_tx_next(
    v: EngineView,
    id: [u8; 32],
    timestamp: u64,
    approval_required: bool,
) -> EngineView {
    EngineView { proofs: v.proofs.insert(id, new_proof(v, timestamp, approval_required)), ..v }
}

/// Whether the auditor may decide on `id`: only a pending proof.
pub open spec fn is_pending(v: EngineView, id: [u8; 32]) -> bool {
    v.proofs.contains_key(id) && v.proofs[id].state == TxState::Pending
}

/// The state after the auditor's decision on a pending proof: approved for
/// the manual validity window from `now`, or removed.
pub open spec fn decision_next(v: EngineView, id: [u8; 32], decision: bool, now: u64) -> EngineView {
    if decision {
        EngineView {
            proofs: v.proofs.insert(
                id,
                TxMetadata {
                    created_at: v.proofs[id].created_at,
                    valid_until: now.saturating_add(v.manual_validity_secs),
                    state: TxState::Approved,
                },
            ),
            ..v
        }
    } else {
        EngineView { proofs: v.proofs.remove(id), ..v }
    }
}

/// Whether a configuration is refused: screening on needs a key that the
/// registry resolves.
pub open spec fn config_refused(
    sanctions_enabled: bool,
    sanctions_key: Option<Seq<u8>>,
    resolved: Option<Addr>,
) -> bool {
    sanctions_enabled && (sanctions_key is None || resolved is None)
}

/// The state after an accepted configuration.
pub open spec fn config_next(
    v: EngineView,
    trustline_enabled: bool,
    sanctions_enabled: bool,
    sanctions_key: Option<Seq<u8>>,
    resolved: Option<Addr>,
) -> EngineView {
    EngineView {
        trustline_oracle_enabled: Some(trustline_enabled),
        sanctions_oracle_enabled: Some(sanctions_enabled),
        sanctions_list: if sanctions_enabled { resolved } else { None },
        sanctions_key: if sanctions_enabled { sanctions_key } else { None },
        ..v
    }
}

/// Engine operations that a stored role must authorise. Publishing is
/// authorised by the publishing oracle and enforcement by the protected
/// protocol, both given by the caller.
#[derive(Clone, Copy, Debug, PartialEq, Eq, Structural)]
pub enum GuardedOp {
    TransferAdmin,
    SetAuditor,
    SetValidationConfiguration,
    Upgrade,
    ApproveOrRejectTx,
}

/// The stored role that authorises `op`.
pub open spec fn signer_of(v: EngineView, op: GuardedOp) -> Addr {
    match op {
        GuardedOp::ApproveOrRejectTx => v.auditor,
        _ => v.admin,
    }
}

/// What a successful `add_tx` asks the contract layer to do: publish the
/// events and keep the proof entry live for `ttl_ledgers`.
#[derive(Clone, Copy, Debug)]
pub struct ProofRegistered {
    pub added: TxAdded,
    pub pending: Option<TxPending>,
    pub ttl_ledgers: u32,
}

/// What the auditor's decision asks the contract layer to do: publish the
/// event, and, for an approval, keep the entry live for the given ledgers.
#[derive(Clone, Copy, Debug)]
pub struct AuditDecision {
    pub approval: TxApproval,
    pub ttl_ledgers: Option<u32>,
}

/// Whether `a` is in `list`.
fn listed(list: &Vec<Addr>, a: &Addr) -> (r: bool)
    ensures
        r == list@.contains(*a),
{
    let mut i: usize = 0;
    while i < list.len()
        invariant
            0 <= i <= list@.len(),
            forall|j: int| 0 <= j < i ==> list@[j] != *a,
        decreases list@.len() - i,
    {
        if list[i] == *a {
            assert(list@[i as int] == *a);
            return true;
        }
        i = i + 1;
    }
    false
}

/// The state of an engine after `init`, with the event it publishes.
/// The auditor starts as the admin; the Trustline oracle is on and
/// sanctions screening off.
pub fn init(
    admin: Addr,
    registry: Addr,
    auto_validity_secs: u64,
    manual_validity_secs: u64,
    max_skew_secs: u64,
) -> (r: (EngineState, ConfigInit))
    ensures
        r.0@ == init_view(admin, registry, auto_validity_secs, manual_validity_secs, max_skew_secs),
        r.1 == (ConfigInit { admin, registry, auto_validity_secs, manual_validity_secs }),
{
    let state = EngineState {
        admin,
        registry,
        auditor: admin,
        trustline_oracle_enabled: Some(true),
        sanctions_oracle_enabled: Some(false),
        sanctions_list: None,
        sanctions_key: None,
        auto_validity_secs,
        manual_validity_secs,
        max_skew_secs,
        proofs: Table::new(),
    };
    let event = ConfigInit { admin, registry, auto_validity_secs, manual_validity_secs };
    (state, event)
}

/// The engine's version.
pub fn version() -> (r: u32)
    ensures
        r == 1,
{
    1
}

/// The intent id of a call: the hash that binds a proof to one network,
/// mode, sender, protocol, value and call data. The network is the one the
/// ledger of `env` runs on.
pub fn compute_intent_id(
    env: &Env,
    mode: ValidationMode,
    sender: &Addr,
    protocol: &Addr,
    value: i128,
    data: &[u8],
) -> (r: [u8; 32])
    ensures
        exists|network_id: [u8; 32]| r == intent_of(network_id, *sender, *protocol, value, data@),
{
    let r = intent_id(env, mode, sender, protocol, value, data);
    let ghost n = choose|n: [u8; 32]| r == spec_intent_id(n, 0u32, *sender, *protocol, value, data@);
    assert(r == intent_of(n, *sender, *protocol, value, data@));
    r
}

impl EngineState {
    pub closed spec fn view(&self) -> EngineView {
        EngineView {
            admin: self.admin,
            registry: self.registry,
            auditor: self.auditor,
            trustline_oracle_enabled: self.trustline_oracle_enabled,
            sanctions_oracle_enabled: self.sanctions_oracle_enabled,
            sanctions_list: self.sanctions_list,
            sanctions_key: key_view(self.sanctions_key),
            auto_validity_secs: self.auto_validity_secs,
            manual_validity_secs: self.manual_validity_secs,
            max_skew_secs: self.max_skew_secs,
            proofs: self.proofs@,
        }
    }

    /// Screening is only on with a list to ask.
    #[verifier::type_invariant]
    closed spec fn inv(&self) -> bool {
        engine_wf(self.view())
    }

    /// An engine state from its stored parts, provided they satisfy the
    /// engine's invariant: none when screening is on with no list.
    pub fn restore(
        admin: Addr,
        registry: Addr,
        auditor: Addr,
        trustline_oracle_enabled: Option<bool>,
        sanctions_oracle_enabled: Option<bool>,
        sanctions_list: Option<Addr>,
        sanctions_key: Option<Vec<u8>>,
        auto_validity_secs: u64,
        manual_validity_secs: u64,
        max_skew_secs: u64,
        proofs: Table<[u8; 32], TxMetadata>,
    ) -> (r: Option<EngineState>)
        ensures
            ({
                let v = EngineView {
                    admin,
                    registry,
                    auditor,
                    trustline_oracle_enabled,
                    sanctions_oracle_enabled,
                    sanctions_list,
                    sanctions_key: key_view(sanctions_key),
                    auto_validity_secs,
                    manual_validity_secs,
                    max_skew_secs,
                    proofs: proofs@,
                };
                &&& r is Some <==> engine_wf(v)
                &&& r matches Some(st) ==> st@ == v
            }),
    {
        let screening = match sanctions_oracle_enabled {
            Some(b) => b,
            None => false,
        };
        if screening && sanctions_list.is_none() {
            return None;
        }
        Some(
            EngineState {
                admin,
                registry,
                auditor,
                trustline_oracle_enabled,
                sanctions_oracle_enabled,
                sanctions_list,
                sanctions_key,
                auto_validity_secs,
                manual_validity_secs,
                max_skew_secs,
                proofs,
            },
        )
    }

    pub fn admin(&self) -> (r: Addr)
        ensures
            r == self@.admin,
    {
        self.admin
    }

    pub fn registry(&self) -> (r: Addr)
        ensures
            r == self@.registry,
    {
        self.registry
    }

    pub fn auditor(&self) -> (r: Addr)
        ensures
            r == self@.auditor,
    {
        self.auditor
    }

    /// The stored Trustline flag; absent reads as enabled.
    pub fn trustline_oracle_flag(&self) -> (r: Option<bool>)
        ensures
            r == self@.trustline_oracle_enabled,
    {
        self.trustline_oracle_enabled
    }

    /// The stored sanctions flag; absent reads as disabled.
    pub fn sanctions_oracle_flag(&self) -> (r: Option<bool>)
        ensures
            r == self@.sanctions_oracle_enabled,
    {
        self.sanctions_oracle_enabled
    }

    pub fn sanctions_list(&self) -> (r: Option<Addr>)
        ensures
            r == self@.sanctions_list,
    {
        self.sanctions_list
    }

    pub fn sanctions_key(&self) -> (r: Option<Vec<u8>>)
        ensures
            key_view(r) == self@.sanctions_key,
    {
        match &self.sanctions_key {
            Some(k) => Some(copy_bytes(k)),
            None => None,
        }
    }

    pub fn auto_validity_secs(&self) -> (r: u64)
        ensures
            r == self@.auto_validity_secs,
    {
        self.auto_validity_secs
    }

    pub fn manual_validity_secs(&self) -> (r: u64)
        ensures
            r == self@.manual_validity_secs,
    {
        self.manual_validity_secs
    }

    pub fn max_skew_secs(&self) -> (r: u64)
        ensures
            r == self@.max_skew_secs,
    {
        self.max_skew_secs
    }

    /// The stored proof for `id`.
    pub fn stored_proof(&self, id: &[u8; 32]) -> (r: Option<TxMetadata>)
        ensures
            r == self@.proofs.get(*id),
    {
        self.proofs.get(id)
    }

    fn put_proof(&mut self, id: &[u8; 32], meta: TxMetadata)
        ensures
            final(self)@ == (EngineView { proofs: old(self)@.proofs.insert(*id, meta), ..old(self)@ }),
    {
        proof {
            use_type_invariant(&*self);
        }
        let mut proofs: Table<[u8; 32], TxMetadata> = Table::new();
        std::mem::swap(&mut proofs, &mut self.proofs);
        proofs.insert(*id, meta);
        self.proofs = proofs;
    }

    fn remove_proof(&mut self, id: &[u8; 32])
        ensures
            final(self)@ == (EngineView { proofs: old(self)@.proofs.remove(*id), ..old(self)@ }),
    {
        proof {
            use_type_invariant(&*self);
        }
        let mut proofs: Table<[u8; 32], TxMetadata> = Table::new();
        std::mem::swap(&mut proofs, &mut self.proofs);
        proofs.remove(id);
        self.proofs = proofs;
    }

    /// The stored role that must authorise `op`: the auditor decides on
    /// pending proofs, the admin authorises everything else. The host traps
    /// a call that this address did not authorise.
    pub fn required_signer(&self, op: GuardedOp) -> (r: Addr)
        ensures
            r == signer_of(self@, op),
    {
        match op {
            GuardedOp::ApproveOrRejectTx => self.auditor,
            _ => self.admin,
        }
    }

    /// The addresses to ask the sanctions list about, in order: the sender,
    /// then each address; none when screening is off, and a list to ask
    /// whenever it is on.
    pub fn screening_targets(&self, sender: &Addr, addresses: &Vec<Addr>) -> (r: Vec<Addr>)
        ensures
            r@ == (if sanctions_on(self@) {
                seq![*sender] + addresses@
            } else {
                Seq::<Addr>::empty()
            }),
            sanctions_on(self@) ==> self@.sanctions_list is Some,
    {
        proof {
            use_type_invariant(self);
        }
        let mut targets: Vec<Addr> = Vec::new();
        if !self.sanctions_oracle_enabled() {
            return targets;
        }
        targets.push(*sender);
        let mut i: usize = 0;
        while i < addresses.len()
            invariant
                0 <= i <= addresses@.len(),
                targets@ == seq![*sender] + addresses@.take(i as int),
            decreases addresses@.len() - i,
        {
            targets.push(addresses[i]);
            assert(addresses@.take(i + 1) =~= addresses@.take(i as int).push(addresses@[i as int]));
            i = i + 1;
        }
        assert(addresses@.take(addresses@.len() as int) =~= addresses@);
        targets
    }

    pub fn trustline_oracle_enabled(&self) -> (r: bool)
        ensures
            r == trustline_on(self@),
    {
        match self.trustline_oracle_enabled {
            Some(b) => b,
            None => true,
        }
    }

    pub fn sanctions_oracle_enabled(&self) -> (r: bool)
        ensures
            r == sanctions_on(self@),
    {
        match self.sanctions_oracle_enabled {
            Some(b) => b,
            None => false,
        }
    }

    /// Hands the admin role to `new_admin`.
    pub fn transfer_admin(&mut self, new_admin: Addr)
        ensures
            final(self)@ == (EngineView { admin: new_admin, ..old(self)@ }),
    {
        proof {
            use_type_invariant(&*self);
        }
        self.admin = new_admin;
    }

    /// Hands the auditor role to `new_auditor`.
    pub fn set_auditor(&mut self, new_auditor: Addr)
        ensures
            final(self)@ == (EngineView { auditor: new_auditor, ..old(self)@ }),
    {
        proof {
            use_type_invariant(&*self);
        }
        self.auditor = new_auditor;
    }

    /// Sets the oracle flags. With screening on, `sanctions_key` must be
    /// given and `resolved` is the registry's record for it, which becomes
    /// the sanctions list; with screening off the list and key are cleared.
    /// A refused configuration leaves the state unchanged.
    pub fn set_validation_configuration(
        &mut self,
        trustline_enabled: bool,
        sanctions_enabled: bool,
        sanctions_key: Option<Vec<u8>>,
        resolved: Option<Addr>,
    ) -> (r: Result<ConfigUpdated, Error>)
        ensures
            config_refused(sanctions_enabled, key_view(sanctions_key), resolved) ==> {
                &&& r == Err::<ConfigUpdated, Error>(Error::SanctionsKeyUnknown)
                &&& final(self)@ == old(self)@
            },
            !config_refused(sanctions_enabled, key_view(sanctions_key), resolved) ==> {
                &&& r == Ok::<ConfigUpdated, Error>(ConfigUpdated { trustline_enabled, sanctions_enabled })
                &&& final(self)@ == config_next(
                    old(self)@,
                    trustline_enabled,
                    sanctions_enabled,
                    key_view(sanctions_key),
                    resolved,
                )
            },
    {
        proof {
            use_type_invariant(&*self);
        }
        if sanctions_enabled {
            let key = match sanctions_key {
                Some(k) => k,
                None => {
                    return Err(Error::SanctionsKeyUnknown);
                },
            };
            let list = match resolved {
                Some(a) => a,
                None => {
                    return Err(Error::SanctionsKeyUnknown);
                },
            };
            self.sanctions_list = Some(list);
            self.sanctions_key = Some(key);
            self.trustline_oracle_enabled = Some(trustline_enabled);
            self.sanctions_oracle_enabled = Some(true);
        } else {
            self.trustline_oracle_enabled = Some(trustline_enabled);
            self.sanctions_oracle_enabled = Some(false);
            self.sanctions_list = None;
            self.sanctions_key = None;
        }
        Ok(ConfigUpdated { trustline_enabled, sanctions_enabled })
    }

    /// Screens the sender and then each address: `Rejected` as soon as one
    /// is flagged, when screening is on.
    pub fn check_sanctions(&self, sender: &Addr, addresses: &Vec<Addr>, flagged: &Vec<Addr>) -> (r:
        TxState)
        ensures
            r == sanctions_verdict(self@, *sender, addresses@, flagged@),
    {
        if !self.sanctions_oracle_enabled() {
            return TxState::Approved;
        }
        if listed(flagged, sender) {
            return TxState::Rejected;
        }
        let mut i: usize = 0;
        while i < addresses.len()
            invariant
                0 <= i <= addresses@.len(),
                sanctions_on(self@),
                !flagged@.contains(*sender),
                forall|j: int| 0 <= j < i ==> !flagged@.contains(#[trigger] addresses@[j]),
            decreases addresses@.len() - i,
        {
            if listed(flagged, &addresses[i]) {
                assert(flagged@.contains(addresses@[i as int]));
                return TxState::Rejected;
            }
            i = i + 1;
        }
        TxState::Approved
    }

    /// The oracle's view of the proof for `id` at time `now`.
    pub fn check_oracle_state(&self, id: &[u8; 32], now: u64) -> (r: TxState)
        ensures
            r == oracle_state(self@, *id, now),
    {
        if !self.trustline_oracle_enabled() {
            return TxState::Approved;
        }
        match self.proofs.get(id) {
            None => TxState::Unknown,
            Some(meta) => {
                if meta.state != TxState::Approved {
                    meta.state
                } else if meta.valid_until > now {
                    TxState::Approved
                } else {
                    TxState::Expired
                }
            },
        }
    }

    /// The state of an intent: `Rejected` when screening flags the sender
    /// or an address, else the oracle's state of the proof.
    pub fn get_tx_state(
        &self,
        sender: &Addr,
        id: &[u8; 32],
        addresses: &Vec<Addr>,
        flagged: &Vec<Addr>,
        now: u64,
    ) -> (r: TxState)
        ensures
            r == tx_state(self@, *sender, *id, addresses@, flagged@, now),
    {
        let sanctions = self.check_sanctions(sender, addresses, flagged);
        if sanctions != TxState::Approved {
            return sanctions;
        }
        self.check_oracle_state(id, now)
    }

    /// Consumes the proof for `id`: with the oracle on, only an approved,
    /// unexpired proof passes, and it is removed; with the oracle off every
    /// call passes and nothing is read or removed.
    pub fn consume_validation(&mut self, env: &Env, id: &[u8; 32], now: u64) -> (r: Result<
        TxExecuted,
        Error,
    >)
        ensures
            executed_as(r, consume_result(old(self)@, *id, now)),
            final(self)@ == consume_next(old(self)@, *id, now),
    {
        proof {
            use_type_invariant(&*self);
        }
        if !self.trustline_oracle_enabled() {
            let final_id = final_tx_id(env, id, 0);
            return Ok(TxExecuted { final_id });
        }
        if self.check_oracle_state(id, now) != TxState::Approved {
            return Err(Error::NotApproved);
        }
        let meta = match self.proofs.get(id) {
            Some(m) => m,
            None => {
                return Err(Error::NotApproved);
            },
        };
        let final_id = final_tx_id(env, id, meta.created_at);
        self.remove_proof(id);
        Ok(TxExecuted { final_id })
    }

    /// Screens, then consumes the proof for `id`.
    pub fn validate_and_consume(
        &mut self,
        env: &Env,
        sender: &Addr,
        id: &[u8; 32],
        addresses: &Vec<Addr>,
        flagged: &Vec<Addr>,
        now: u64,
    ) -> (r: Result<TxExecuted, Error>)
        ensures
            executed_as(r, validate_result(old(self)@, *sender, *id, addresses@, flagged@, now)),
            final(self)@ == validate_next(old(self)@, *sender, *id, addresses@, flagged@, now),
    {
        if self.check_sanctions(sender, addresses, flagged) == TxState::Rejected {
            return Err(Error::Sanctioned);
        }
        self.consume_validation(env, id, now)
    }

    /// Enforces a proof for the intent of `(mode, sender, protocol, value,
    /// data)`: the engine computes the intent id and consumes its proof.
    pub fn require_trustline_adv(
        &mut self,
        env: &Env,
        protocol: &Addr,
        mode: ValidationMode,
        sender: &Addr,
        value: i128,
        data: &[u8],
        addresses: &Vec<Addr>,
        flagged: &Vec<Addr>,
        now: u64,
    ) -> (r: Result<TxExecuted, Error>)
        ensures
            exists|network_id: [u8; 32]|
                #[trigger] enforced(
                    old(self)@,
                    final(self)@,
                    r,
                    *sender,
                    intent_of(network_id, *sender, *protocol, value, data@),
                    addresses@,
                    flagged@,
                    now,
                ),
    {
        let id = compute_intent_id(env, mode, sender, protocol, value, data);
        let ghost n = choose|n: [u8; 32]| id == intent_of(n, *sender, *protocol, value, data@);
        let r = self.validate_and_consume(env, sender, &id, addresses, flagged, now);
        assert(enforced(old(self)@, self@, r, *sender, intent_of(n, *sender, *protocol, value, data@), addresses@, flagged@, now));
        r
    }

    /// [`Self::require_trustline_adv`] in the `Dapp` mode.
    pub fn require_trustline_addrs(
        &mut self,
        env: &Env,
        protocol: &Addr,
        sender: &Addr,
        value: i128,
        data: &[u8],
        addresses: &Vec<Addr>,
        flagged: &Vec<Addr>,
        now: u64,
    ) -> (r: Result<TxExecuted, Error>)
        ensures
            exists|network_id: [u8; 32]|
                #[trigger] enforced(
                    old(self)@,
                    final(self)@,
                    r,
                    *sender,
                    intent_of(network_id, *sender, *protocol, value, data@),
                    addresses@,
                    flagged@,
                    now,
                ),
    {
        self.require_trustline_adv(env, protocol, dapp_mode(), sender, value, data, addresses, flagged, now)
    }

    /// [`Self::require_trustline_adv`] in the `Dapp` mode, screening the
    /// sender only.
    pub fn require_trustline(
        &mut self,
        env: &Env,
        protocol: &Addr,
        sender: &Addr,
        value: i128,
        data: &[u8],
        flagged: &Vec<Addr>,
        now: u64,
    ) -> (r: Result<TxExecuted, Error>)
        ensures
            exists|network_id: [u8; 32]|
                #[trigger] enforced(
                    old(self)@,
                    final(self)@,
                    r,
                    *sender,
                    intent_of(network_id, *sender, *protocol, value, data@),
                    Seq::empty(),
                    flagged@,
                    now,
                ),
    {
        let addresses: Vec<Addr> = Vec::new();
        assert(addresses@ =~= Seq::<Addr>::empty());
        self.require_trustline_addrs(env, protocol, sender, value, data, &addresses, flagged, now)
    }

    /// Reports, without consuming, whether a spendable proof exists for the
    /// intent of `(mode, sender, protocol, value, data)`.
    pub fn check_status_adv(
        &self,
        env: &Env,
        protocol: &Addr,
        mode: ValidationMode,
        sender: &Addr,
        value: i128,
        data: &[u8],
        addresses: &Vec<Addr>,
        flagged: &Vec<Addr>,
        now: u64,
    ) -> (r: bool)
        ensures
            exists|network_id: [u8; 32]|
                r == (tx_state(
                    self@,
                    *sender,
                    #[trigger] intent_of(network_id, *sender, *protocol, value, data@),
                    addresses@,
                    flagged@,
                    now,
                ) == TxState::Approved),
    {
        let id = compute_intent_id(env, mode, sender, protocol, value, data);
        let ghost n = choose|n: [u8; 32]| id == intent_of(n, *sender, *protocol, value, data@);
        let r = self.get_tx_state(sender, &id, addresses, flagged, now) == TxState::Approved;
        assert(r == (tx_state(self@, *sender, intent_of(n, *sender, *protocol, value, data@), addresses@, flagged@, now) == TxState::Approved));
        r
    }

    /// [`Self::check_status_adv`] in the `Dapp` mode.
    pub fn check_status_addrs(
        &self,
        env: &Env,
        protocol: &Addr,
        sender: &Addr,
        value: i128,
        data: &[u8],
        addresses: &Vec<Addr>,
        flagged: &Vec<Addr>,
        now: u64,
    ) -> (r: bool)
        ensures
            exists|network_id: [u8; 32]|
                r == (tx_state(
                    self@,
                    *sender,
                    #[trigger] intent_of(network_id, *sender, *protocol, value, data@),
                    addresses@,
                    flagged@,
                    now,
                ) == TxState::Approved),
    {
        self.check_status_adv(env, protocol, dapp_mode(), sender, value, data, addresses, flagged, now)
    }

    /// [`Self::check_status_adv`] in the `Dapp` mode, screening the sender
    /// only.
    pub fn check_trustline_status(
        &self,
        env: &Env,
        protocol: &Addr,
        sender: &Addr,
        value: i128,
        data: &[u8],
        flagged: &Vec<Addr>,
        now: u64,
    ) -> (r: bool)
        ensures
            exists|network_id: [u8; 32]|
                r == (tx_state(
                    self@,
                    *sender,
                    #[trigger] intent_of(network_id, *sender, *protocol, value, data@),
                    Seq::empty(),
                    flagged@,
                    now,
                ) == TxState::Approved),
    {
        let addresses: Vec<Addr> = Vec::new();
        assert(addresses@ =~= Seq::<Addr>::empty());
        self.check_status_addrs(env, protocol, sender, value, data, &addresses, flagged, now)
    }

    /// Registers a proof published by an oracle. `oracle_approved` is the
    /// registry's answer for the publishing oracle and `now` the ledger time.
    pub fn add_tx(
        &mut self,
        env: &Env,
        id: &[u8; 32],
        policy_hash: &[u8; 32],
        timestamp: u64,
        approval_required: bool,
        oracle_approved: bool,
        now: u64,
    ) -> (r: Result<ProofRegistered, Error>)
        ensures
            match add_tx_error(old(self)@, *id, timestamp, oracle_approved, now) {
                Some(e) => r == Err::<ProofRegistered, Error>(e) && final(self)@ == old(self)@,
                None => {
                    &&& final(self)@ == add_tx_next(old(self)@, *id, timestamp, approval_required)
                    &&& r matches Ok(p) && {
                        &&& p.added.final_id == spec_final_tx_id(*id, timestamp)
                        &&& p.added.policy_hash == *policy_hash
                        &&& (approval_required ==> p.pending == Some(
                            TxPending { final_id: spec_final_tx_id(*id, timestamp), id: *id },
                        ))
                        &&& (!approval_required ==> p.pending is None)
                        &&& p.ttl_ledgers == spec_proof_ttl_ledgers(old(self)@.auto_validity_secs)
                    }
                },
            },
    {
        proof {
            use_type_invariant(&*self);
        }
        if !oracle_approved {
            return Err(Error::Unauthorized);
        }
        let auto_validity = self.auto_validity_secs;
        let max_skew = self.max_skew_secs;
        if timestamp.saturating_add(auto_validity) <= now {
            return Err(Error::ValidationExpired);
        }
        if timestamp > now.saturating_add(max_skew) {
            return Err(Error::ValidationTooEarly);
        }
        match self.proofs.get(id) {
            Some(existing) => {
                if existing.created_at == timestamp {
                    return Err(Error::AlreadySubmitted);
                }
            },
            None => {},
        }
        let meta = if approval_required {
            TxMetadata { created_at: timestamp, valid_until: 0, state: TxState::Pending }
        } else {
            TxMetadata {
                created_at: timestamp,
                valid_until: timestamp.saturating_add(auto_validity),
                state: TxState::Approved,
            }
        };
        self.put_proof(id, meta);
        let ttl_ledgers = proof_ttl_ledgers(auto_validity);
        let final_id = final_tx_id(env, id, timestamp);
        let added = TxAdded { final_id, policy_hash: *policy_hash };
        let pending = if approval_required {
            Some(TxPending { final_id, id: *id })
        } else {
            None
        };
        Ok(ProofRegistered { added, pending, ttl_ledgers })
    }

    /// The auditor's decision on a pending proof: approve it for the manual
    /// validity window from `now`, or reject and remove it.
    pub fn approve_or_reject_tx(&mut self, env: &Env, id: &[u8; 32], decision: bool, now: u64) -> (r:
        Result<AuditDecision, Error>)
        ensures
            !is_pending(old(self)@, *id) ==> r == Err::<AuditDecision, Error>(Error::NotPending)
                && final(self)@ == old(self)@,
            is_pending(old(self)@, *id) ==> {
                &&& final(self)@ == decision_next(old(self)@, *id, decision, now)
                &&& r matches Ok(d) && {
                    &&& d.approval.final_id == spec_final_tx_id(*id, old(self)@.proofs[*id].created_at)
                    &&& d.approval.decision == decision
                    &&& (decision ==> d.ttl_ledgers == Some(
                        spec_proof_ttl_ledgers(old(self)@.manual_validity_secs),
                    ))
                    &&& (!decision ==> d.ttl_ledgers is None)
                }
            },
    {
        proof {
            use_type_invariant(&*self);
        }
        let meta = match self.proofs.get(id) {
            Some(m) => m,
            None => {
                return Err(Error::NotPending);
            },
        };
        if meta.state != TxState::Pending {
            return Err(Error::NotPending);
        }
        let final_id = final_tx_id(env, id, meta.created_at);
        let approval = TxApproval { final_id, decision };
        if decision {
            let manual = self.manual_validity_secs;
            let approved = TxMetadata {
                created_at: meta.created_at,
                valid_until: now.saturating_add(manual),
                state: TxState::Approved,
            };
            self.put_proof(id, approved);
            Ok(AuditDecision { approval, ttl_ledgers: Some(proof_ttl_ledgers(manual)) })
        } else {
            self.remove_proof(id);
            Ok(AuditDecision { approval, ttl_ledgers: None })
        }
    }
}

/// A proof is spendable exactly once: after a successful consumption with
/// the oracle on, the intent reads `Unknown` at any time and every later
/// attempt to consume it fails, leaving the state as it is.
pub proof fn lemma_proof_spent_once(
    v: EngineView,
    sender: Addr,
    id: [u8; 32],
    addresses: Seq<Addr>,
    flagged: Seq<Addr>,
    now: u64,
    sender2: Addr,
    addresses2: Seq<Addr>,
    flagged2: Seq<Addr>,
    later: u64,
)
    requires
        trustline_on(v),
        validate_result(v, sender, id, addresses, flagged, now) is Ok,
    ensures
        ({
            let n = validate_next(v, sender, id, addresses, flagged, now);
            &&& oracle_state(n, id, later) == TxState::Unknown
            &&& validate_result(n, sender2, id, addresses2, flagged2, later) is Err
            &&& validate_next(n, sender2, id, addresses2, flagged2, later) == n
        }),
{
}

/// Enforcement agrees with the reported status: consuming succeeds exactly
/// when the intent reads `Approved`.
pub proof fn lemma_status_matches_enforcement(
    v: EngineView,
    sender: Addr,
    id: [u8; 32],
    addresses: Seq<Addr>,
    flagged: Seq<Addr>,
    now: u64,
)
    ensures
        (tx_state(v, sender, id, addresses, flagged, now) == TxState::Approved)
            <==> validate_result(v, sender, id, addresses, flagged, now) is Ok,
{
}

/// Screening rejects before any proof is read: a flagged sender or
/// address fails with `Sanctioned`, reads `Rejected`, and changes nothing.
pub proof fn lemma_sanctions_gate(
    v: EngineView,
    sender: Addr,
    id: [u8; 32],
    addresses: Seq<Addr>,
    flagged: Seq<Addr>,
    now: u64,
)
    requires
        sanctions_on(v),
        any_flagged(sender, addresses, flagged),
    ensures
        validate_result(v, sender, id, addresses, flagged, now) == Err::<[u8; 32], Error>(Error::Sanctioned),
        validate_next(v, sender, id, addresses, flagged, now) == v,
        tx_state(v, sender, id, addresses, flagged, now) == TxState::Rejected,
{
}

/// With the Trustline oracle off, enforcement fails open: every intent
/// that screening clears reads `Approved` and is enforced without reading
/// or removing any proof.
pub proof fn lemma_oracle_off_fails_open(
    v: EngineView,
    sender: Addr,
    id: [u8; 32],
    addresses: Seq<Addr>,
    flagged: Seq<Addr>,
    now: u64,
)
    requires
        !trustline_on(v),
        sanctions_verdict(v, sender, addresses, flagged) == TxState::Approved,
    ensures
        tx_state(v, sender, id, addresses, flagged, now) == TxState::Approved,
        validate_result(v, sender, id, addresses, flagged, now) == Ok::<[u8; 32], Error>(spec_final_tx_id(id, 0)),
        validate_next(v, sender, id, addresses, flagged, now) == v,
{
}

/// A proof registered without approval is spendable at the time of its
/// registration, and consuming it names the registration timestamp.
pub proof fn lemma_registered_proof_spendable(
    v: EngineView,
    id: [u8; 32],
    timestamp: u64,
    now: u64,
)
    requires
        trustline_on(v),
        add_tx_error(v, id, timestamp, true, now) is None,
    ensures
        oracle_state(add_tx_next(v, id, timestamp, false), id, now) == TxState::Approved,
        consume_result(add_tx_next(v, id, timestamp, false), id, now) == Ok::<[u8; 32], Error>(
            spec_final_tx_id(id, timestamp),
        ),
        add_tx_next(v, id, timestamp, false).proofs[id].valid_until == timestamp.saturating_add(
            v.auto_validity_secs,
        ),
{
}

/// A proof that requires approval reads `Pending` and cannot be consumed
/// until the auditor approves it.
pub proof fn lemma_pending_not_spendable(v: EngineView, id: [u8; 32], timestamp: u64, now: u64)
    requires
        trustline_on(v),
    ensures
        oracle_state(add_tx_next(v, id, timestamp, true), id, now) == TxState::Pending,
        consume_result(add_tx_next(v, id, timestamp, true), id, now) == Err::<[u8; 32], Error>(
            Error::NotApproved,
        ),
        is_pending(add_tx_next(v, id, timestamp, true), id),
{
}

/// The auditor's approval makes a pending proof spendable for the manual
/// window from the decision; a rejection removes it.
pub proof fn lemma_decision_outcome(v: EngineView, id: [u8; 32], now: u64, later: u64)
    requires
        trustline_on(v),
        is_pending(v, id),
        later < now.saturating_add(v.manual_validity_secs),
    ensures
        oracle_state(decision_next(v, id, true, now), id, later) == TxState::Approved,
        oracle_state(decision_next(v, id, false, now), id, later) == TxState::Unknown,
{
}

/// What publishing decides, over all inputs. An unapproved oracle is
/// refused. For an approved one, with `expires` the timestamp plus the
/// automatic validity and `latest` the ledger time plus the allowed skew
/// (both capped at `u64::MAX`):
/// - the proof is refused as expired exactly when `expires <= now`, however
///   old the timestamp is otherwise;
/// - it is refused as too early exactly when it is unexpired and dated
///   after `latest`, with the configured skew;
/// - it is refused as a replay exactly when it passes both and a proof is
///   stored for `id` with the same timestamp;
/// - otherwise it is accepted, whatever other proof is stored for `id`: the
///   new proof replaces it, dated `timestamp`, pending for the auditor or
///   approved until `expires`, and the proofs of every other id and the
///   configuration are unchanged.
pub proof fn lemma_add_tx_decision(
    v: EngineView,
    id: [u8; 32],
    timestamp: u64,
    approval_required: bool,
    now: u64,
)
    ensures
        add_tx_error(v, id, timestamp, false, now) == Some(Error::Unauthorized),
        ({
            let sum_e: int = timestamp + v.auto_validity_secs;
            let expires: int = if sum_e > u64::MAX { u64::MAX as int } else { sum_e };
            let sum_l: int = now + v.max_skew_secs;
            let latest: int = if sum_l > u64::MAX { u64::MAX as int } else { sum_l };
            let replay = v.proofs.contains_key(id) && v.proofs[id].created_at == timestamp;
            let e = add_tx_error(v, id, timestamp, true, now);
            &&& (e == Some(Error::ValidationExpired)) <==> expires <= now
            &&& (e == Some(Error::ValidationTooEarly)) <==> (now < expires && latest < timestamp)
            &&& (e == Some(Error::AlreadySubmitted)) <==> (now < expires && timestamp <= latest
                && replay)
            &&& (e is None) <==> (now < expires && timestamp <= latest && !replay)
        }),
        ({
            let sum_e: int = timestamp + v.auto_validity_secs;
            let expires: int = if sum_e > u64::MAX { u64::MAX as int } else { sum_e };
            let n = add_tx_next(v, id, timestamp, approval_required);
            &&& n.proofs.contains_key(id)
            &&& n.proofs[id].created_at == timestamp
            &&& approval_required ==> n.proofs[id].state == TxState::Pending
            &&& !approval_required ==> n.proofs[id].state == TxState::Approved
                && n.proofs[id].valid_until == expires
            &&& n.proofs.remove(id) == v.proofs.remove(id)
            &&& n == EngineView { proofs: n.proofs, ..v }
        }),
{
    let n = add_tx_next(v, id, timestamp, approval_required);
    assert(n.proofs.remove(id) =~= v.proofs.remove(id));
}

/// Re-publishing a proof with the same timestamp is refused as a replay.
pub proof fn lemma_exact_replay_refused(
    v: EngineView,
    id: [u8; 32],
    timestamp: u64,
    approval_required: bool,
    now: u64,
)
    requires
        add_tx_error(v, id, timestamp, true, now) is None,
    ensures
        add_tx_error(add_tx_next(v, id, timestamp, approval_required), id, timestamp, true, now) == Some(
            Error::AlreadySubmitted,
        ),
{
}

/// Expiry is final: a proof that reads `Expired` keeps reading so at every
/// later time, and one that reads `Approved` did so at every earlier time.
pub proof fn lemma_expiry_monotone(v: EngineView, id: [u8; 32], t1: u64, t2: u64)
    requires
        t1 <= t2,
    ensures
        oracle_state(v, id, t1) == TxState::Expired ==> oracle_state(v, id, t2) == TxState::Expired,
        oracle_state(v, id, t2) == TxState::Approved ==> oracle_state(v, id, t1) == TxState::Approved,
{
}

/// Consuming one intent leaves the state of every other intent unchanged.
pub proof fn lemma_consume_isolated(
    v: EngineView,
    sender: Addr,
    id: [u8; 32],
    addresses: Seq<Addr>,
    flagged: Seq<Addr>,
    now: u64,
    other: [u8; 32],
    t: u64,
)
    requires
        other != id,
    ensures
        oracle_state(validate_next(v, sender, id, addresses, flagged, now), other, t) == oracle_state(
            v,
            other,
            t,
        ),
{
}

/// Publishing again under an existing intent id with a new timestamp
/// replaces the stored proof: a pending proof republished without approval
/// becomes spendable without the auditor.
pub proof fn lemma_republish_replaces(v: EngineView, id: [u8; 32], timestamp: u64, now: u64)
    requires
        trustline_on(v),
        is_pending(v, id),
        add_tx_error(v, id, timestamp, true, now) is None,
    ensures
        oracle_state(add_tx_next(v, id, timestamp, false), id, now) == TxState::Approved,
{
}

/// A proof is bound to one call. With the oracle on, enforcing the call of
/// `sender` on `protocol` with `value` and `data` succeeds only with an
/// approved, unexpired proof stored under that call's own intent id, spends
/// that proof alone, and leaves the proof stored under every other id as it
/// was. Since the id hashes the network, sender, protocol, value and data,
/// a proof published for a different call lies under a different id unless
/// the hash collides.
pub proof fn lemma_proof_bound_to_intent(
    v: EngineView,
    network_id: [u8; 32],
    sender: Addr,
    protocol: Addr,
    value: i128,
    data: Seq<u8>,
    addresses: Seq<Addr>,
    flagged: Seq<Addr>,
    now: u64,
    other: [u8; 32],
    t: u64,
)
    requires
        trustline_on(v),
        other != intent_of(network_id, sender, protocol, value, data),
    ensures
        ({
            let id = intent_of(network_id, sender, protocol, value, data);
            let n = validate_next(v, sender, id, addresses, flagged, now);
            &&& validate_result(v, sender, id, addresses, flagged, now) is Ok ==> {
                &&& oracle_state(v, id, now) == TxState::Approved
                &&& n.proofs == v.proofs.remove(id)
            }
            &&& n.proofs.get(other) == v.proofs.get(other)
            &&& oracle_state(n, other, t) == oracle_state(v, other, t)
        }),
{
}

} // verus!
