//! Plain-value stand-ins for the EVM primitives the fee-manager logic reads:
//! 20-byte addresses, 32-byte words and 256-bit unsigned amounts.
use vstd::prelude::*;

verus! {

broadcast use vstd::array::group_array_axioms;

/// The size of the 256-bit word's low and high halves, `2^128`.
pub open spec fn half_word() -> nat {
    0x1_0000_0000_0000_0000_0000_0000_0000_0000nat
}

/// Largest value a 256-bit word can hold.
pub open spec fn u256_max() -> nat {
    (half_word() * half_word() - 1) as nat
}

/// A 20-byte EVM account address.
#[derive(Clone, Copy, Debug, PartialEq, Eq, Hash)]
pub struct Address {
    pub bytes: [u8; 20],
}

impl Address {
    /// The zero address.
    pub fn zero() -> (r: Address)
        ensures
            r.spec_is_zero(),
    {
        Address { bytes: [0u8; 20] }
    }

    /// An address whose twenty bytes are all `b`.
    pub fn repeat_byte(b: u8) -> (r: Address)
        ensures
            forall|i: int| 0 <= i < 20 ==> #[trigger] r.bytes[i] == b,
    {
        Address { bytes: [b; 20] }
    }

    /// An address from its big-endian bytes.
    pub fn from_bytes(bytes: [u8; 20]) -> (r: Address)
        ensures
            r.bytes == bytes,
    {
        Address { bytes }
    }

    /// All bytes are zero.
    pub open spec fn spec_is_zero(&self) -> bool {
        forall|i: int| 0 <= i < 20 ==> #[trigger] self.bytes[i] == 0u8
    }

    /// Returns true iff every byte of the address is zero.
    pub fn is_zero(&self) -> (r: bool)
        ensures
            r == self.spec_is_zero(),
    {
        let mut i: usize = 0;
        while i < 20
            invariant
                i <= 20,
                forall|j: int| 0 <= j < i ==> #[trigger] self.bytes[j] == 0u8,
            decreases 20 - i,
        {
            if self.bytes[i] != 0 {
                return false;
            }
            i = i + 1;
        }
        true
    }

    /// Byte-wise equality of two addresses.
    pub fn same(&self, other: &Address) -> (r: bool)
        ensures
            r == (*self == *other),
    {
        let mut i: usize = 0;
        while i < 20
            invariant
                i <= 20,
                forall|j: int| 0 <= j < i ==> #[trigger] self.bytes[j] == other.bytes[j],
            decreases 20 - i,
        {
            if self.bytes[i] != other.bytes[i] {
                return false;
            }
            i = i + 1;
        }
        assert(self.bytes =~= other.bytes);
        true
    }
}

/// Zero is the only address whose bytes are all zero.
pub proof fn lemma_zero_address_unique(a: Address, b: Address)
    requires
        a.spec_is_zero(),
        b.spec_is_zero(),
    ensures
        a == b,
{
    assert(a.bytes =~= b.bytes);
}

/// A pair of addresses keying a two-level mapping, e.g. (validator, token).
#[derive(Clone, Copy, Debug, PartialEq, Eq, Hash)]
pub struct AddressPair {
    pub first: Address,
    pub second: Address,
}

/// A 32-byte key paired with an address, keying a two-level mapping, e.g. (currency, issuer).
#[derive(Clone, Copy, Debug, PartialEq, Eq, Hash)]
pub struct KeyedAddress {
    pub key: B256,
    pub address: Address,
}

/// A 32-byte word, used as a storage key.
#[derive(Clone, Copy, Debug, PartialEq, Eq, Hash)]
pub struct B256 {
    pub bytes: [u8; 32],
}

impl B256 {
    /// Byte-wise equality of two words.
    pub fn same(&self, other: &B256) -> (r: bool)
        ensures
            r == (*self == *other),
    {
        let mut i: usize = 0;
        while i < 32
            invariant
                i <= 32,
                forall|j: int| 0 <= j < i ==> #[trigger] self.bytes[j] == other.bytes[j],
            decreases 32 - i,
        {
            if self.bytes[i] != other.bytes[i] {
                return false;
            }
            i = i + 1;
        }
        assert(self.bytes =~= other.bytes);
        true
    }
}

/// A 256-bit unsigned amount held as two 128-bit halves.
#[derive(Clone, Copy, Debug, PartialEq, Eq, Structural)]
pub struct U256 {
    pub lo: u128,
    pub hi: u128,
}

impl View for U256 {
    type V = nat;

    open spec fn view(&self) -> nat {
        (self.hi as nat) * half_word() + (self.lo as nat)
    }
}

impl U256 {
    /// The amount zero.
    pub fn zero() -> (r: U256)
        ensures
            r@ == 0,
    {
        U256 { lo: 0, hi: 0 }
    }

    /// The amount `v`.
    pub fn from_u128(v: u128) -> (r: U256)
        ensures
            r@ == v,
    {
        U256 { lo: v, hi: 0 }
    }

    /// The amount `v`.
    pub fn from_u64(v: u64) -> (r: U256)
        ensures
            r@ == v,
    {
        U256 { lo: v as u128, hi: 0 }
    }

    /// Returns true iff the amount is zero.
    pub fn is_zero(&self) -> (r: bool)
        ensures
            r == (self@ == 0),
    {
        self.lo == 0 && self.hi == 0
    }

    /// Every amount fits in 256 bits.
    pub proof fn lemma_bounded(&self)
        ensures
            self@ <= u256_max(),
    {
        assert(self.hi as nat <= half_word() - 1);
        assert((self.hi as nat) * half_word() <= (half_word() - 1) * half_word()) by (nonlinear_arith)
            requires
                self.hi as nat <= half_word() - 1,
        ;
    }

    /// Equal values mean equal halves.
    pub proof fn lemma_view_injective(a: U256, b: U256)
        requires
            a@ == b@,
        ensures
            a == b,
    {
        assert(a.hi == b.hi) by (nonlinear_arith)
            requires
                (a.hi as nat) * half_word() + (a.lo as nat) == (b.hi as nat) * half_word() + (b.lo as nat),
                a.lo < half_word(),
                b.lo < half_word(),
                half_word() > 0,
        ;
    }

    /// Adds two amounts, or `None` when the sum does not fit in 256 bits.
    pub fn checked_add(&self, other: &U256) -> (r: Option<U256>)
        ensures
            r matches Some(s) ==> s@ == self@ + other@,
            r is None <==> self@ + other@ > u256_max(),
    {
        let (lo, carry) = if self.lo <= u128::MAX - other.lo {
            (self.lo + other.lo, 0u128)
        } else {
            (self.lo - (u128::MAX - other.lo) - 1, 1u128)
        };
        assert((lo as nat) + (carry as nat) * half_word() == (self.lo as nat) + (other.lo as nat));
        if self.hi > u128::MAX - other.hi || self.hi + other.hi > u128::MAX - carry {
            assert(self.hi as nat + other.hi as nat + carry as nat >= half_word());
            assert(self@ + other@ > u256_max()) by (nonlinear_arith)
                requires
                    self.hi as nat + other.hi as nat + carry as nat >= half_word(),
                    (lo as nat) + (carry as nat) * half_word() == (self.lo as nat) + (other.lo as nat),
                    self@ == (self.hi as nat) * half_word() + (self.lo as nat),
                    other@ == (other.hi as nat) * half_word() + (other.lo as nat),
                    u256_max() == half_word() * half_word() - 1,
            ;
            None
        } else {
            let s = U256 { lo, hi: self.hi + other.hi + carry };
            assert(s@ == self@ + other@) by (nonlinear_arith)
                requires
                    s.hi as nat == self.hi as nat + other.hi as nat + carry as nat,
                    s.lo == lo,
                    (lo as nat) + (carry as nat) * half_word() == (self.lo as nat) + (other.lo as nat),
                    s@ == (s.hi as nat) * half_word() + (s.lo as nat),
                    self@ == (self.hi as nat) * half_word() + (self.lo as nat),
                    other@ == (other.hi as nat) * half_word() + (other.lo as nat),
            ;
            proof {
                s.lemma_bounded();
            }
            Some(s)
        }
    }
}

} // verus!
