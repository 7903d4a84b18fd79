//! Decoding of Stellar strkeys, through the `stellar_strkey` crate.

use vstd::prelude::*;

verus! {

/// The 32-byte payload that `stellar_strkey::Contract::from_string` decodes
/// from a contract strkey (`C...`), or `None` where it refuses the string.
pub uninterp spec fn contract_strkey_payload(s: Seq<char>) -> Option<Seq<u8>>;

/// The 32-byte payload that `stellar_strkey::ed25519::PublicKey::from_string`
/// decodes from an account strkey (`G...`), or `None` where it refuses the string.
pub uninterp spec fn account_strkey_payload(s: Seq<char>) -> Option<Seq<u8>>;

/// Calls `stellar_strkey::Contract::from_string`. Claimed: the result is `Some`
/// exactly where the crate accepts the string, and then holds the decoded
/// payload, a function of the string alone.
#[verifier::external_body]
pub(crate) fn decode_contract_strkey(s: &str) -> (r: Option<[u8; 32]>)
    ensures
        r is Some <==> contract_strkey_payload(s@) is Some,
        r matches Some(id) ==> id@ == contract_strkey_payload(s@).unwrap(),
{
    match stellar_strkey::Contract::from_string(s) {
        Ok(contract) => Some(contract.0),
        Err(_) => None,
    }
}

/// Calls `stellar_strkey::ed25519::PublicKey::from_string`. Claimed: the
/// result is `Some` exactly where the crate accepts the string, and then holds
/// the decoded key, a function of the string alone.
#[verifier::external_body]
pub(crate) fn decode_account_strkey(s: &str) -> (r: Option<[u8; 32]>)
    ensures
        r is Some <==> account_strkey_payload(s@) is Some,
        r matches Some(key) ==> key@ == account_strkey_payload(s@).unwrap(),
{
    match stellar_strkey::ed25519::PublicKey::from_string(s) {
        Ok(key) => Some(key.0),
        Err(_) => None,
    }
}

} // verus!
