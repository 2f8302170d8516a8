//! Events that the contracts publish. The library computes them; the
//! contract layer publishes them on the ledger.

use crate::types::Addr;
use vstd::prelude::*;

verus! {

/// Published once when an engine instance is initialised.
#[derive(Clone, Copy, Debug)]
pub struct ConfigInit {
    pub admin: Addr,
    pub registry: Addr,
    pub auto_validity_secs: u64,
    pub manual_validity_secs: u64,
}

/// Published when the engine's oracle flags are reconfigured.
#[derive(Clone, Copy, Debug, PartialEq, Eq, Structural)]
pub struct ConfigUpdated {
    pub trustline_enabled: bool,
    pub sanctions_enabled: bool,
}

/// Published when an oracle registers a proof.
#[derive(Clone, Copy, Debug)]
pub struct TxAdded {
    pub final_id: [u8; 32],
    pub policy_hash: [u8; 32],
}

/// Published when a registered proof awaits the auditor.
#[derive(Clone, Copy, Debug)]
pub struct TxPending {
    pub final_id: [u8; 32],
    pub id: [u8; 32],
}

/// Published when the auditor decides on a pending proof.
#[derive(Clone, Copy, Debug)]
pub struct TxApproval {
    pub final_id: [u8; 32],
    pub decision: bool,
}

/// Published when a proof is consumed, or when enforcement passes with the
/// Trustline oracle disabled.
#[derive(Clone, Copy, Debug)]
pub struct TxExecuted {
    pub final_id: [u8; 32],
}

/// Published once when a registry is created.
#[derive(Clone, Copy, Debug)]
pub struct RegistryInit {
    pub admin: Addr,
}

/// Published when the registry's admin changes.
#[derive(Clone, Copy, Debug)]
pub struct RegistryAdminTransferred {
    pub old_admin: Addr,
    pub new_admin: Addr,
}

/// Published when an oracle is granted or revoked.
#[derive(Clone, Copy, Debug)]
pub struct RegistryOracleUpdated {
    pub oracle: Addr,
    pub approved: bool,
}

/// Published when a record is set.
#[derive(Clone, Debug)]
pub struct RegistryRecordSet {
    pub key: Vec<u8>,
    pub hashed: [u8; 32],
    pub addr: Addr,
}

/// Published when a record is cleared.
#[derive(Clone, Debug)]
pub struct RegistryRecordRemoved {
    pub key: Vec<u8>,
    pub hashed: [u8; 32],
}

/// Published when a sanctions list changes owner.
#[derive(Clone, Copy, Debug)]
pub struct OwnerUpdated {
    pub old_owner: Addr,
    pub new_owner: Addr,
}

/// Published when an address is marked or cleared on a sanctions list.
#[derive(Clone, Copy, Debug)]
pub struct SanctionUpdated {
    pub addr: Addr,
    pub sanctioned: bool,
}

} // verus!
