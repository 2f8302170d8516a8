//! Ledger counts for the time-to-live of stored entries.

use vstd::prelude::*;

verus! {

/// A week of ledgers at five seconds a ledger.
pub const WEEK_OF_LEDGERS: u32 = 120960u32;

/// Ledgers for which a proof entry is kept live, given the validity window
/// in seconds: one ledger per five seconds, plus a margin of 120, never
/// under 100. The count of ledgers is taken modulo 2^32 before the margin is
/// added, and the sum saturates at `u32::MAX`.
pub open spec fn spec_proof_ttl_ledgers(validity_secs: u64) -> u32 {
    let per_five = (validity_secs / 5) as u32;
    let with_margin = per_five.saturating_add(120);
    if with_margin < 100 { 100 } else { with_margin }
}

pub fn proof_ttl_ledgers(validity_secs: u64) -> (r: u32)
    ensures
        r == spec_proof_ttl_ledgers(validity_secs),
        r >= 120,
{
    #[verifier::truncate]
    let per_five: u32 = (validity_secs / 5) as u32;
    let with_margin: u32 = per_five.saturating_add(120);
    if with_margin < 100 {
        100
    } else {
        with_margin
    }
}

/// The `(threshold, extend_to)` pair with which a long-lived entry is
/// bumped: extend to the network's maximum TTL whenever less than that
/// maximum minus a week remains.
pub fn ttl_bump(max_ttl: u32) -> (r: (u32, u32))
    ensures
        r.0 == max_ttl.saturating_sub(WEEK_OF_LEDGERS),
        r.1 == max_ttl,
        r.0 <= r.1,
{
    (max_ttl.saturating_sub(WEEK_OF_LEDGERS), max_ttl)
}

} // verus!
