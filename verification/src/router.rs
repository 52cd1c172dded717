//! Router selector registry for fee-token inference.
//!
//! Governance registers `(router, selector) -> arg_index` triples. When a
//! transaction targets a registered router, the protocol decodes the token
//! address at `arg_index` and uses it as the fee token.
use crate::primitives::B256;
use vstd::prelude::*;

verus! {

/// Registration of a router function selector.
#[derive(Clone, Copy, Debug, PartialEq, Eq, Structural)]
pub struct RouterDescriptor {
    pub registered: bool,
    pub token_input_arg_index: u8,
}

impl RouterDescriptor {
    /// The unregistered descriptor: not registered, argument index zero.
    pub open spec fn spec_default() -> RouterDescriptor {
        RouterDescriptor { registered: false, token_input_arg_index: 0 }
    }
}

impl Default for RouterDescriptor {
    fn default() -> (r: RouterDescriptor)
        ensures
            r == RouterDescriptor::spec_default(),
    {
        RouterDescriptor { registered: false, token_input_arg_index: 0 }
    }
}

/// The 32-byte key of a selector: its four bytes followed by 28 zero bytes.
pub open spec fn spec_selector_key(selector: Seq<u8>) -> Seq<u8> {
    selector + Seq::new(28, |_i: int| 0u8)
}

/// Pads a 4-byte selector into a B256 storage key (left-aligned, rest zero).
pub fn selector_key(selector: [u8; 4]) -> (r: B256)
    ensures
        r.bytes@ == spec_selector_key(selector@),
{
    let mut key = [0u8; 32];
    key[0] = selector[0];
    key[1] = selector[1];
    key[2] = selector[2];
    key[3] = selector[3];
    assert(key@ =~= spec_selector_key(selector@));
    B256 { bytes: key }
}

/// Distinct selectors have distinct storage keys.
pub proof fn lemma_selector_key_injective(a: [u8; 4], b: [u8; 4])
    requires
        spec_selector_key(a@) == spec_selector_key(b@),
    ensures
        a == b,
{
    assert forall|i: int| 0 <= i < 4 implies a@[i] == b@[i] by {
        assert(spec_selector_key(a@)[i] == a@[i]);
        assert(spec_selector_key(b@)[i] == b@[i]);
    }
    assert(a@ =~= b@);
}

} // verus!
