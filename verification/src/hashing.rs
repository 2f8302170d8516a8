//! Hashes computed by the Soroban host and by `trustline-sdk`.
//!
//! Each function here makes one outside call; the contracts say what is
//! known of the result.

use soroban_sdk::address_payload::AddressPayload;
use soroban_sdk::{Bytes, BytesN, Env};
use trustline_sdk::types::ValidationMode;

use crate::types::{Addr, AddrKind};
use vstd::prelude::*;

verus! {

/// `sha256` over the XDR encoding of `(id, timestamp)`, as computed by
/// `trustline_sdk::intent::final_tx_id`.
pub uninterp spec fn spec_final_tx_id(id: [u8; 32], timestamp: u64) -> [u8; 32];

/// `keccak256` of a byte string, as computed by the Soroban host.
pub uninterp spec fn spec_keccak256(data: Seq<u8>) -> [u8; 32];

/// Calls `trustline_sdk::intent::final_tx_id`, which hashes the XDR encoding
/// of `(id, timestamp)` with the host's `sha256`. The result depends on the
/// two arguments alone; the contract names it and says nothing more.
#[verifier::external_body]
pub(crate) fn final_tx_id(env: &Env, id: &[u8; 32], timestamp: u64) -> (r: [u8; 32])
    ensures
        r == spec_final_tx_id(*id, timestamp),
{
    trustline_sdk::intent::final_tx_id(env, &BytesN::from_array(env, id), timestamp).to_array()
}

/// Calls `Crypto::keccak256` of `soroban_sdk` on the given bytes. The
/// contract names the digest as a function of the bytes.
#[verifier::external_body]
pub(crate) fn keccak256(env: &Env, data: &[u8]) -> (r: [u8; 32])
    ensures
        r == spec_keccak256(data@),
{
    env.crypto().keccak256(&Bytes::from_slice(env, data)).to_array()
}

/// `sha256` over the XDR encoding of `(network_id, mode, sender, protocol,
/// value, data)`, as computed by `trustline_sdk::intent::intent_id`, where
/// `mode` is the mode's code and each address is the host address with that
/// account key or contract hash.
pub uninterp spec fn spec_intent_id(
    network_id: [u8; 32],
    mode: u32,
    sender: Addr,
    protocol: Addr,
    value: i128,
    data: Seq<u8>,
) -> [u8; 32];

/// Calls `trustline_sdk::intent::intent_id` on the host addresses built by
/// `AddressPayload::to_address`. The SDK hashes the network id of the ledger
/// that `env` runs on together with the arguments; the contract names the
/// result for the arguments and some network id, which it leaves open. The
/// mode enters as its code: `ValidationMode` has the one variant `Dapp`,
/// whose code is 0.
#[verifier::external_body]
pub(crate) fn intent_id(
    env: &Env,
    mode: ValidationMode,
    sender: &Addr,
    protocol: &Addr,
    value: i128,
    data: &[u8],
) -> (r: [u8; 32])
    ensures
        exists|network_id: [u8; 32]| r == spec_intent_id(network_id, 0u32, *sender, *protocol, value, data@),
{
    let host = |a: &Addr| match a.kind {
        AddrKind::Account => AddressPayload::AccountIdPublicKeyEd25519(BytesN::from_array(env, &a.key)),
        AddrKind::Contract => AddressPayload::ContractIdHash(BytesN::from_array(env, &a.key)),
    }.to_address(env);
    let bytes = Bytes::from_slice(env, data);
    trustline_sdk::intent::intent_id(env, mode, &host(sender), &host(protocol), value, &bytes).to_array()
}

/// Builds `ValidationMode::Dapp` of `trustline-sdk`, the one mode it
/// defines. Nothing is stated of the opaque value.
#[verifier::external_body]
pub(crate) fn dapp_mode() -> ValidationMode {
    ValidationMode::Dapp
}

} // verus!
