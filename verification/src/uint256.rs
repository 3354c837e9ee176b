//! Unsigned 256-bit amounts: gas limits, prices and fees.

use vstd::prelude::*;

verus! {

/// The largest value a [`U256`] holds, `2^256 - 1`.
pub open spec fn u256_max() -> nat {
    0xffff_ffff_ffff_ffff_ffff_ffff_ffff_ffff_ffff_ffff_ffff_ffff_ffff_ffff_ffff_ffffnat
}

/// The number that four 64-bit limbs stand for, least significant limb first.
pub open spec fn limbs_value(limbs: Seq<u64>) -> nat {
    (limbs[0] as nat) + (limbs[1] as nat) * 0x1_0000_0000_0000_0000nat
        + (limbs[2] as nat) * 0x1_0000_0000_0000_0000_0000_0000_0000_0000nat
        + (limbs[3] as nat) * 0x1_0000_0000_0000_0000_0000_0000_0000_0000_0000_0000_0000_0000nat
}

/// The product of two amounts, clamped at [`u256_max`].
pub open spec fn saturating_mul_spec(a: nat, b: nat) -> nat {
    if a * b > u256_max() {
        u256_max()
    } else {
        a * b
    }
}

/// The sum of two amounts, clamped at [`u256_max`].
pub open spec fn saturating_add_spec(a: nat, b: nat) -> nat {
    if a + b > u256_max() {
        u256_max()
    } else {
        a + b
    }
}

/// `amount`, clamped at the largest amount that 64 bits hold.
pub open spec fn clamped_u64(amount: nat) -> u64 {
    if amount > u64::MAX {
        u64::MAX
    } else {
        amount as u64
    }
}

/// An unsigned 256-bit integer, held as four 64-bit limbs with the least
/// significant limb first.
#[derive(Clone, Copy, Debug, PartialEq, Eq)]
pub struct U256(pub [u64; 4]);

impl View for U256 {
    type V = nat;

    open spec fn view(&self) -> nat {
        limbs_value(self.0@)
    }
}

impl U256 {
    /// The value zero.
    pub fn zero() -> (r: U256)
        ensures
            r@ == 0,
    {
        U256([0, 0, 0, 0])
    }

    /// The 256-bit integer equal to `value`.
    pub fn from_u64(value: u64) -> (r: U256)
        ensures
            r@ == value,
    {
        U256([value, 0, 0, 0])
    }

    /// Whether the value can be held in 64 bits.
    pub fn fits_u64(&self) -> (r: bool)
        ensures
            r == (self@ <= u64::MAX),
    {
        self.0[1] == 0 && self.0[2] == 0 && self.0[3] == 0
    }

    /// The value as a `u64`, or the largest `u64` where the value is larger.
    pub fn saturating_to_u64(&self) -> (r: u64)
        ensures
            r == clamped_u64(self@),
    {
        if self.fits_u64() {
            self.0[0]
        } else {
            u64::MAX
        }
    }

    /// The product of `self` and `other`, or the maximum where the product
    /// does not fit in 256 bits.
    ///
    /// Trusted: calls `primitive_types::U256::saturating_mul`, which
    /// multiplies with overflow detection and returns `U256::MAX` on overflow.
    #[verifier::external_body]
    pub(crate) fn saturating_mul(self, other: U256) -> (r: U256)
        ensures
            r@ == saturating_mul_spec(self@, other@),
    {
        U256(primitive_types::U256(self.0).saturating_mul(primitive_types::U256(other.0)).0)
    }

    /// The sum of `self` and `other`, or the maximum where the sum does not
    /// fit in 256 bits.
    ///
    /// Trusted: calls `primitive_types::U256::saturating_add`, which adds
    /// with overflow detection and returns `U256::MAX` on overflow.
    #[verifier::external_body]
    pub(crate) fn saturating_add(self, other: U256) -> (r: U256)
        ensures
            r@ == saturating_add_spec(self@, other@),
    {
        U256(primitive_types::U256(self.0).saturating_add(primitive_types::U256(other.0)).0)
    }

    /// Whether `self` is numerically smaller than `other`.
    pub fn lt(&self, other: &U256) -> (r: bool)
        ensures
            r == (self@ < other@),
    {
        if self.0[3] != other.0[3] {
            self.0[3] < other.0[3]
        } else if self.0[2] != other.0[2] {
            self.0[2] < other.0[2]
        } else if self.0[1] != other.0[1] {
            self.0[1] < other.0[1]
        } else {
            self.0[0] < other.0[0]
        }
    }
}

/// Every amount is at most [`u256_max`].
pub proof fn lemma_u256_bounded(x: U256)
    ensures
        x@ <= u256_max(),
{
}

/// Saturating addition clamps at the maximum exactly when the true sum
/// exceeds it, and its result is never smaller than either operand.
pub proof fn lemma_saturating_add(a: nat, b: nat)
    requires
        a <= u256_max(),
        b <= u256_max(),
    ensures
        saturating_add_spec(a, b) <= u256_max(),
        a + b <= u256_max() ==> saturating_add_spec(a, b) == a + b,
        a + b > u256_max() ==> saturating_add_spec(a, b) == u256_max(),
        saturating_add_spec(a, b) >= a,
        saturating_add_spec(a, b) >= b,
{
}

/// Saturating multiplication clamps at the maximum exactly when the true
/// product exceeds it. Where it clamps, the result is no smaller than either
/// operand; where neither operand is zero, the same holds of every result.
pub proof fn lemma_saturating_mul(a: nat, b: nat)
    requires
        a <= u256_max(),
        b <= u256_max(),
    ensures
        saturating_mul_spec(a, b) <= u256_max(),
        a * b <= u256_max() ==> saturating_mul_spec(a, b) == a * b,
        a * b > u256_max() ==> saturating_mul_spec(a, b) == u256_max(),
        a * b > u256_max() || (a > 0 && b > 0) ==> saturating_mul_spec(a, b) >= a
            && saturating_mul_spec(a, b) >= b,
{
    if a > 0 && b > 0 {
        assert(a * b >= a && a * b >= b) by (nonlinear_arith)
            requires
                a > 0,
                b > 0,
        ;
    }
}

/// Saturating multiplication never decreases when an operand grows.
pub proof fn lemma_saturating_mul_monotonic(a: nat, b: nat, c: nat)
    requires
        b <= c,
    ensures
        saturating_mul_spec(a, b) <= saturating_mul_spec(a, c),
{
    assert(a * b <= a * c) by (nonlinear_arith)
        requires
            b <= c,
    ;
}

} // verus!
