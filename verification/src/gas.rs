//! Fee-token spending of a transaction's gas.
use crate::primitives::{half_word, u256_max, U256};
use vstd::prelude::*;

verus! {

/// Factor by which the gas price is scaled for gas spending calculations.
pub const MAGNUS_GAS_PRICE_SCALING_FACTOR: u64 = 1_000_000_000_000;

/// The base of a 64-bit limb.
pub open spec fn limb() -> nat {
    0x1_0000_0000_0000_0000
}

/// Gas balance spending: `gas_limit * gas_price`, saturated at the 256-bit maximum, divided
/// by the scaling factor and rounded up.
pub open spec fn spec_gas_balance_spending(gas_limit: u64, gas_price: u128) -> nat {
    let product = (gas_limit as nat) * (gas_price as nat);
    let saturated = if product > u256_max() { u256_max() } else { product };
    (saturated + MAGNUS_GAS_PRICE_SCALING_FACTOR - 1) as nat / (MAGNUS_GAS_PRICE_SCALING_FACTOR as nat)
}

/// The limbs of the product: `gas_limit * gas_price == (l2 * B + l1) * B + l0`.
proof fn lemma_product_limbs(gl: nat, p_hi: nat, p_lo: nat, m0: nat, m1: nat, l0: nat, l1: nat, l2: nat, mid: nat)
    requires
        m0 == gl * p_lo,
        m1 == gl * p_hi,
        l0 == m0 % limb(),
        mid == m1 + m0 / limb(),
        l1 == mid % limb(),
        l2 == mid / limb(),
    ensures
        gl * (p_hi * limb() + p_lo) == (l2 * limb() + l1) * limb() + l0,
{
    let b = limb();
    assert(gl * (p_hi * b + p_lo) == m1 * b + m0) by (nonlinear_arith)
        requires
            m0 == gl * p_lo,
            m1 == gl * p_hi,
    ;
    assert(m0 == (m0 / b) * b + l0) by (nonlinear_arith)
        requires
            l0 == m0 % b,
            b > 0,
    ;
    assert(mid == l2 * b + l1) by (nonlinear_arith)
        requires
            l1 == mid % b,
            l2 == mid / b,
            b > 0,
    ;
    assert(m1 * b + m0 == mid * b + l0) by (nonlinear_arith)
        requires
            mid == m1 + m0 / b,
            m0 == (m0 / b) * b + l0,
    ;
    assert(mid * b + l0 == (l2 * b + l1) * b + l0) by (nonlinear_arith)
        requires
            mid == l2 * b + l1,
    ;
}

/// Long division of `(l2 * B + l1) * B + l0` by `d`, one limb at a time.
proof fn lemma_long_division(
    d: nat,
    l0: nat,
    l1: nat,
    l2: nat,
    q0: nat,
    q1: nat,
    q2: nat,
    r0: nat,
    r1: nat,
    r2: nat,
)
    requires
        d > 0,
        l2 == q2 * d + r2,
        r2 < d,
        r2 * limb() + l1 == q1 * d + r1,
        r1 < d,
        r1 * limb() + l0 == q0 * d + r0,
        r0 < d,
    ensures
        (l2 * limb() + l1) * limb() + l0 == d * ((q2 * limb() + q1) * limb() + q0) + r0,
{
    let b = limb();
    assert((l2 * b + l1) * b + l0 == ((q2 * d + r2) * b + l1) * b + l0);
    assert(((q2 * d + r2) * b + l1) * b + l0 == q2 * d * b * b + (r2 * b + l1) * b + l0) by (nonlinear_arith);
    assert(q2 * d * b * b + (r2 * b + l1) * b + l0 == q2 * d * b * b + (q1 * d + r1) * b + l0);
    assert(q2 * d * b * b + (q1 * d + r1) * b + l0 == q2 * d * b * b + q1 * d * b + (r1 * b + l0)) by (nonlinear_arith);
    assert(q2 * d * b * b + q1 * d * b + (r1 * b + l0) == q2 * d * b * b + q1 * d * b + q0 * d + r0);
    assert(q2 * d * b * b + q1 * d * b + q0 * d + r0 == d * ((q2 * b + q1) * b + q0) + r0) by (nonlinear_arith);
}

/// A quotient digit of a dividend below `d * B` is a limb.
proof fn lemma_digit_bound(c: nat, d: nat, r: nat, l: nat)
    requires
        d > 0,
        r < d,
        l < limb(),
        c == r * limb() + l,
    ensures
        c / d < limb(),
{
    let b = limb();
    assert(c < d * b) by (nonlinear_arith)
        requires
            r < d,
            l < b,
            c == r * b + l,
    ;
    assert(c / d < b) by (nonlinear_arith)
        requires
            c < d * b,
            d > 0,
    ;
}

/// Calculates gas balance spending with the gas price scaled by
/// [`MAGNUS_GAS_PRICE_SCALING_FACTOR`]: `ceil(gas_limit * gas_price / factor)`.
pub fn calc_gas_balance_spending(gas_limit: u64, gas_price: u128) -> (r: U256)
    ensures
        r@ == spec_gas_balance_spending(gas_limit, gas_price),
{
    let d: u128 = 1_000_000_000_000;
    let b: u128 = 0x1_0000_0000_0000_0000;
    let gl: u128 = gas_limit as u128;
    let p_hi: u128 = gas_price / b;
    let p_lo: u128 = gas_price % b;
    assert(gl * p_lo < 0x1_0000_0000_0000_0000_0000_0000_0000_0000) by (nonlinear_arith)
        requires
            gl < 0x1_0000_0000_0000_0000,
            p_lo < 0x1_0000_0000_0000_0000,
    ;
    assert(gl * p_hi <= 0xffff_ffff_ffff_ffff * 0xffff_ffff_ffff_ffff) by (nonlinear_arith)
        requires
            gl < 0x1_0000_0000_0000_0000,
            p_hi < 0x1_0000_0000_0000_0000,
    ;
    let m0: u128 = gl * p_lo;
    let m1: u128 = gl * p_hi;
    let l0: u128 = m0 % b;
    let mid: u128 = m1 + m0 / b;
    let l1: u128 = mid % b;
    let l2: u128 = mid / b;
    let q2: u128 = l2 / d;
    let r2: u128 = l2 % d;
    assert((r2 as nat) * limb() + (l1 as nat) < 0x1_0000_0000_0000_0000_0000_0000_0000_0000) by (nonlinear_arith)
        requires
            r2 < 1_000_000_000_000,
            l1 < 0x1_0000_0000_0000_0000,
            limb() == 0x1_0000_0000_0000_0000,
    ;
    let c1: u128 = r2 * b + l1;
    let q1: u128 = c1 / d;
    let r1: u128 = c1 % d;
    assert((r1 as nat) * limb() + (l0 as nat) < 0x1_0000_0000_0000_0000_0000_0000_0000_0000) by (nonlinear_arith)
        requires
            r1 < 1_000_000_000_000,
            l0 < 0x1_0000_0000_0000_0000,
            limb() == 0x1_0000_0000_0000_0000,
    ;
    let c0: u128 = r1 * b + l0;
    let q0: u128 = c0 / d;
    let r0: u128 = c0 % d;
    proof {
        lemma_product_limbs(gl as nat, p_hi as nat, p_lo as nat, m0 as nat, m1 as nat, l0 as nat, l1 as nat, l2 as nat, mid as nat);
        lemma_long_division(d as nat, l0 as nat, l1 as nat, l2 as nat, q0 as nat, q1 as nat, q2 as nat, r0 as nat, r1 as nat, r2 as nat);
        lemma_digit_bound(c1 as nat, d as nat, r2 as nat, l1 as nat);
        lemma_digit_bound(c0 as nat, d as nat, r1 as nat, l0 as nat);
    }
    assert((q1 as nat) * limb() + (q0 as nat) < 0x1_0000_0000_0000_0000_0000_0000_0000_0000) by (nonlinear_arith)
        requires
            q1 < 0x1_0000_0000_0000_0000,
            q0 < 0x1_0000_0000_0000_0000,
            limb() == 0x1_0000_0000_0000_0000,
    ;
    let lo: u128 = q1 * b + q0;
    let ghost product: nat = (gas_limit as nat) * (gas_price as nat);
    let ghost quotient: nat = (q2 as nat) * half_word() + (lo as nat);
    proof {
        assert(gas_price as nat == (p_hi as nat) * limb() + (p_lo as nat));
        assert(product == (d as nat) * quotient + (r0 as nat)) by (nonlinear_arith)
            requires
                product == (gas_limit as nat) * (gas_price as nat),
                gas_limit as nat == gl as nat,
                gas_price as nat == (p_hi as nat) * limb() + (p_lo as nat),
                (gl as nat) * ((p_hi as nat) * limb() + (p_lo as nat)) == ((l2 as nat) * limb() + (l1 as nat)) * limb() + (l0 as nat),
                ((l2 as nat) * limb() + (l1 as nat)) * limb() + (l0 as nat) == (d as nat) * (((q2 as nat) * limb() + (q1 as nat)) * limb() + (q0 as nat)) + (r0 as nat),
                quotient == (q2 as nat) * half_word() + (lo as nat),
                lo as nat == (q1 as nat) * limb() + (q0 as nat),
                half_word() == limb() * limb(),
        ;
        assert(product <= u256_max()) by (nonlinear_arith)
            requires
                product == (gas_limit as nat) * (gas_price as nat),
                gas_limit < 0x1_0000_0000_0000_0000,
                gas_price < 0x1_0000_0000_0000_0000_0000_0000_0000_0000,
                u256_max() == 0x1_0000_0000_0000_0000_0000_0000_0000_0000 * 0x1_0000_0000_0000_0000_0000_0000_0000_0000 - 1,
        ;
    }
    if r0 == 0 {
        let r = U256 { lo, hi: q2 };
        assert(r@ == spec_gas_balance_spending(gas_limit, gas_price)) by (nonlinear_arith)
            requires
                r@ == quotient,
                product == (d as nat) * quotient,
                d == 1_000_000_000_000,
                spec_gas_balance_spending(gas_limit, gas_price) == (product + 999_999_999_999) / 1_000_000_000_000,
        ;
        r
    } else {
        assert((product + 999_999_999_999) / 1_000_000_000_000 == quotient + 1) by (nonlinear_arith)
            requires
                product == 1_000_000_000_000 * quotient + (r0 as nat),
                0 < r0 < 1_000_000_000_000,
        ;
        if lo == u128::MAX {
            assert(q2 < u128::MAX) by (nonlinear_arith)
                requires
                    q2 == l2 / 1_000_000_000_000,
                    l2 < 0x1_0000_0000_0000_0000_0000_0000_0000_0000,
            ;
            U256 { lo: 0, hi: q2 + 1 }
        } else {
            U256 { lo: lo + 1, hi: q2 }
        }
    }
}

} // verus!
