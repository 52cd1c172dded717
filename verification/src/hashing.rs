//! Keccak-256 hashing: storage keys for string-keyed mappings and ABI function selectors.
use crate::primitives::B256;
use vstd::prelude::*;
use vstd::string::*;

verus! {

/// The Keccak-256 digest of `data`, as computed by `alloy_primitives::keccak256`.
pub uninterp spec fn keccak256_of(data: Seq<u8>) -> Seq<u8>;

/// Hashes `data` with `alloy_primitives::keccak256`.
///
/// Trusted: the contract claims only that the 32 returned bytes are the Keccak-256
/// digest of the input bytes, a deterministic function of those bytes alone.
#[verifier::external_body]
fn keccak256_bytes(data: &[u8]) -> (r: [u8; 32])
    ensures
        r@ == keccak256_of(data@),
{
    alloy_primitives::keccak256(data).0
}

/// The 4-byte ABI selector of a function signature such as `"transfer(address,uint256)"`.
pub open spec fn selector_of(signature: &str) -> Seq<u8> {
    keccak256_of(signature.spec_bytes()).take(4)
}

/// Computes the storage map key for a given ISO 4217 code: `keccak256(code)`.
pub fn currency_key(code: &str) -> (r: B256)
    ensures
        r.bytes@ == keccak256_of(code.spec_bytes()),
{
    B256 { bytes: keccak256_bytes(code.as_bytes()) }
}

/// The ABI selector of `signature`: the first four bytes of its Keccak-256 digest.
pub fn function_selector(signature: &str) -> (r: [u8; 4])
    ensures
        r@ == selector_of(signature),
{
    let h = keccak256_bytes(signature.as_bytes());
    let r = [h[0], h[1], h[2], h[3]];
    assert(r@ =~= h@.take(4));
    r
}

} // verus!
