//! Checked arithmetic over 128-bit and 256-bit unsigned magnitudes.
//!
//! Every numeric operation in every other component routes through this
//! layer and fails closed on overflow, underflow, or division by zero.
//! Division always floors; this is the only place rounding policy is
//! defined, and cumulative rounding therefore always favors the pool.
use vstd::prelude::*;

use crate::error::ContractError;

verus! {

/// Denominator of all fee percentages: fees are fixed-point
/// parts-per-million, so a fee of 1% is written 10_000.
pub const FEE_DENOM: u128 = 1_000_000;

/// 2^128, the weight of the high limb of a [`U256`].
pub open spec fn pow2_128() -> int {
    (u128::MAX as int) + 1
}

/// The largest value a [`U256`] can hold: 2^256 - 1.
pub open spec fn u256_max() -> int {
    pow2_128() * pow2_128() - 1
}

/// An unsigned 256-bit magnitude, stored as two 128-bit limbs.
#[derive(Clone, Copy, Debug, PartialEq, Eq, Structural)]
pub struct U256 {
    pub hi: u128,
    pub lo: u128,
}

impl U256 {
    /// The mathematical value of the two limbs.
    pub open spec fn as_int(self) -> int {
        self.hi * pow2_128() + self.lo
    }

    /// The value of any limb pair lies between 0 and 2^256 - 1, and fits in
    /// 128 bits exactly when the high limb is zero.
    pub proof fn lemma_bounds(self)
        ensures
            0 <= self.as_int() <= u256_max(),
            self.hi == 0 ==> self.as_int() == self.lo,
            self.hi >= 1 ==> self.as_int() > u128::MAX,
    {
        let p = pow2_128();
        assert(u128::MAX as int * p + p == p * p) by (nonlinear_arith)
            requires
                p == u128::MAX as int + 1,
        ;
        assert(self.hi as int * p <= u128::MAX as int * p) by (nonlinear_arith)
            requires
                self.hi <= u128::MAX,
                p >= 0,
        ;
        assert(self.hi as int * p >= 0) by (nonlinear_arith)
            requires
                p >= 0,
        ;
        assert(self.hi >= 1 ==> self.hi as int * p >= p) by (nonlinear_arith)
            requires
                p >= 0,
        ;
        assert(self.hi == 0 ==> self.hi as int * p == 0) by (nonlinear_arith);
    }

    /// Lexicographic order on the limbs is order on the values.
    pub proof fn lemma_le(self, other: U256)
        ensures
            (self.hi < other.hi || (self.hi == other.hi && self.lo <= other.lo)) == (self.as_int()
                <= other.as_int()),
    {
        let p = pow2_128();
        self.lemma_bounds();
        other.lemma_bounds();
        if self.hi < other.hi {
            assert(other.hi as int * p - self.hi as int * p >= p) by (nonlinear_arith)
                requires
                    other.hi as int - self.hi as int >= 1,
                    p >= 0,
            ;
        }
        if self.hi > other.hi {
            assert(self.hi as int * p - other.hi as int * p >= p) by (nonlinear_arith)
                requires
                    self.hi as int - other.hi as int >= 1,
                    p >= 0,
            ;
        }
    }

    /// Limb pairs are canonical: a value determines its limbs.
    pub proof fn lemma_limbs(self)
        ensures
            self == spec_u256_of(self.as_int()),
    {
        vstd::arithmetic::div_mod::lemma_fundamental_div_mod_converse(
            self.as_int(),
            pow2_128(),
            self.hi as int,
            self.lo as int,
        );
    }

}

/// Checked 128-bit addition.
pub fn add_u128(a: u128, b: u128) -> (r: Result<u128, ContractError>)
    ensures
        a + b <= u128::MAX ==> (r matches Ok(v) && v == a + b),
        a + b > u128::MAX ==> (r matches Err(e) && e is InternalError),
{
    if b <= u128::MAX - a {
        Ok(a + b)
    } else {
        Err(ContractError::InternalError { msg: "u128 addition overflow".to_owned() })
    }
}

/// Checked 128-bit subtraction.
pub fn sub_u128(a: u128, b: u128) -> (r: Result<u128, ContractError>)
    ensures
        b <= a ==> (r matches Ok(v) && v == a - b),
        b > a ==> (r matches Err(e) && e is InternalError),
{
    if b <= a {
        Ok(a - b)
    } else {
        Err(ContractError::InternalError { msg: "u128 subtraction underflow".to_owned() })
    }
}

/// Checked 32-bit addition, for the event counters.
pub fn add_u32(a: u32, b: u32) -> (r: Result<u32, ContractError>)
    ensures
        a + b <= u32::MAX ==> (r matches Ok(v) && v == a + b),
        a + b > u32::MAX ==> (r matches Err(e) && e is InternalError),
{
    if b <= u32::MAX - a {
        Ok(a + b)
    } else {
        Err(ContractError::InternalError { msg: "u32 addition overflow".to_owned() })
    }
}

/// The limb pair that represents `v`, meaningful for values below 2^256.
pub open spec fn spec_u256_of(v: int) -> U256 {
    U256 { hi: (v / pow2_128()) as u128, lo: (v % pow2_128()) as u128 }
}

/// The limb pair whose value is `a + b`, meaningful when the sum fits.
pub open spec fn spec_u256_sum(a: U256, b: u128) -> U256 {
    if a.lo + b <= u128::MAX {
        U256 { hi: a.hi, lo: (a.lo + b) as u128 }
    } else {
        U256 { hi: (a.hi + 1) as u128, lo: (a.lo + b - pow2_128()) as u128 }
    }
}

/// Checked 256-bit + 128-bit addition, for the wide volume counters.
pub fn add_u256(a: U256, b: u128) -> (r: Result<U256, ContractError>)
    ensures
        a.as_int() + b <= u256_max() ==> (r matches Ok(v) && v == spec_u256_sum(a, b)
            && v.as_int() == a.as_int() + b),
        a.as_int() + b > u256_max() ==> (r matches Err(e) && e is InternalError),
{
    if b <= u128::MAX - a.lo {
        let r = U256 { hi: a.hi, lo: a.lo + b };
        proof {
            r.lemma_bounds();
        }
        Ok(r)
    } else if a.hi < u128::MAX {
        let r = U256 { hi: a.hi + 1, lo: b - (u128::MAX - a.lo) - 1 };
        proof {
            r.lemma_bounds();
            let p = pow2_128();
            assert((a.hi + 1) as int * p == a.hi as int * p + p) by (nonlinear_arith);
        }
        Ok(r)
    } else {
        proof {
            let p = pow2_128();
            assert(u128::MAX as int * p + p == p * p) by (nonlinear_arith)
                requires
                    p == u128::MAX as int + 1,
            ;
        }
        Err(ContractError::InternalError { msg: "u256 addition overflow".to_owned() })
    }
}

/// Exact widening multiplication of two 128-bit values.
///
/// Relies on `cosmwasm_std::Uint128::full_mul`, which widens both factors
/// to 256 bits and multiplies without overflow, and on
/// `Uint256::to_be_bytes` for the big-endian limb decomposition.
#[verifier::external_body]
pub(crate) fn mul_u256(a: u128, b: u128) -> (r: U256)
    ensures
        r.as_int() == a * b,
{
    let p = cosmwasm_std::Uint128::new(a).full_mul(cosmwasm_std::Uint128::new(b));
    let be = p.to_be_bytes();
    let mut hi = [0u8; 16];
    let mut lo = [0u8; 16];
    hi.copy_from_slice(&be[0..16]);
    lo.copy_from_slice(&be[16..32]);
    U256 { hi: u128::from_be_bytes(hi), lo: u128::from_be_bytes(lo) }
}

/// Flooring 256-bit / 128-bit division; `None` exactly on a zero divisor.
///
/// Relies on `cosmwasm_std::Uint256::checked_div`, flooring unsigned
/// division that fails only when the divisor is zero, and on
/// `Uint256::{from_be_bytes, to_be_bytes}` for limb conversion.
#[verifier::external_body]
fn div_wide(n: &U256, d: u128) -> (r: Option<U256>)
    ensures
        r is Some <==> d != 0,
        r matches Some(q) ==> q.as_int() == n.as_int() / (d as int),
{
    let mut be = [0u8; 32];
    be[0..16].copy_from_slice(&n.hi.to_be_bytes());
    be[16..32].copy_from_slice(&n.lo.to_be_bytes());
    let nn = cosmwasm_std::Uint256::from_be_bytes(be);
    match nn.checked_div(cosmwasm_std::Uint256::from_u128(d)) {
        Ok(q) => {
            let qb = q.to_be_bytes();
            let mut hi = [0u8; 16];
            let mut lo = [0u8; 16];
            hi.copy_from_slice(&qb[0..16]);
            lo.copy_from_slice(&qb[16..32]);
            Some(U256 { hi: u128::from_be_bytes(hi), lo: u128::from_be_bytes(lo) })
        },
        Err(_) => None,
    }
}

/// Checked flooring division of a 256-bit value by a 128-bit divisor.
pub fn div_u256(n: &U256, d: u128) -> (r: Result<U256, ContractError>)
    ensures
        d != 0 ==> (r matches Ok(q) && q.as_int() == n.as_int() / (d as int)),
        d == 0 ==> (r matches Err(e) && e is InternalError),
{
    match div_wide(n, d) {
        Some(q) => Ok(q),
        None => Err(ContractError::InternalError { msg: "division by zero".to_owned() }),
    }
}

/// Narrowing of a 256-bit value back to 128 bits; fails if it does not fit.
pub fn u256_to_u128(n: &U256) -> (r: Result<u128, ContractError>)
    ensures
        n.as_int() <= u128::MAX ==> (r matches Ok(v) && v == n.as_int()),
        n.as_int() > u128::MAX ==> (r matches Err(e) && e is InternalError),
{
    proof {
        n.lemma_bounds();
    }
    if n.hi == 0 {
        Ok(n.lo)
    } else {
        Err(ContractError::InternalError { msg: "u256 does not fit in u128".to_owned() })
    }
}

/// What `floor(a * num / den)` yields, if the division is defined and the
/// result fits in 128 bits.
pub open spec fn spec_mul_ratio(a: u128, num: u128, den: u128) -> Option<u128> {
    if den == 0 {
        None
    } else if a * num / (den as int) > u128::MAX {
        None
    } else {
        Some((a * num / (den as int)) as u128)
    }
}

/// `floor(a * num / den)` without intermediate overflow, by widening to 256
/// bits before narrowing back.
pub fn mul_ratio_u128(a: u128, num: u128, den: u128) -> (r: Result<u128, ContractError>)
    ensures
        r matches Ok(v) ==> spec_mul_ratio(a, num, den) == Some(v),
        r matches Err(e) ==> spec_mul_ratio(a, num, den) is None && e is InternalError,
{
    let p = mul_u256(a, num);
    let q = div_u256(&p, den)?;
    u256_to_u128(&q)
}

/// `floor(a * pct / FEE_DENOM)`: the fee taken from `a` at a fixed-point
/// percentage `pct`.
pub fn mul_pct_u128(a: u128, pct: u128) -> (r: Result<u128, ContractError>)
    ensures
        r matches Ok(v) ==> spec_mul_ratio(a, pct, FEE_DENOM) == Some(v),
        r matches Err(e) ==> spec_mul_ratio(a, pct, FEE_DENOM) is None && e is InternalError,
{
    mul_ratio_u128(a, pct, FEE_DENOM)
}

} // verus!
