//! Outside types that the library carries through to host calls without
//! looking inside them.

use vstd::prelude::*;

verus! {

/// The Soroban environment handle.
#[verifier::external_type_specification]
#[verifier::external_body]
pub struct ExEnv(soroban_sdk::Env);

/// The validation mode of `trustline-sdk`, carried into the intent hash.
#[verifier::external_type_specification]
#[verifier::external_body]
pub struct ExValidationMode(trustline_sdk::types::ValidationMode);

} // verus!
