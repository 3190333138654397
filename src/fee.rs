use vstd::arithmetic::div_mod::{lemma_div_is_ordered, lemma_div_multiples_vanish};
use vstd::arithmetic::mul::lemma_mul_inequality;
use vstd::prelude::*;

use crate::error::ContractError;

verus! {

/// Ten to the power `n`.
pub open spec fn pow10(n: nat) -> int
    decreases n,
{
    if n == 0 {
        1
    } else {
        10 * pow10((n - 1) as nat)
    }
}

/// The number of basis points in a whole (100%).
pub const BASIS_POINTS_PER_UNIT: u128 = 10000;

/// The fee rate in fixed point with `decimals` fractional digits, truncated.
pub open spec fn fee_rate_atomic(decimals: nat, fee_basis_point: int) -> int {
    fee_basis_point * pow10(decimals) / BASIS_POINTS_PER_UNIT as int
}

/// The fee taken from `amount`, truncated toward zero.
pub open spec fn fee_of(amount: int, decimals: nat, fee_basis_point: int) -> int {
    amount * fee_rate_atomic(decimals, fee_basis_point) / pow10(decimals)
}

/// Whether every intermediate value of the fee computation fits in a `u128`.
pub open spec fn fee_fits(amount: int, decimals: nat, fee_basis_point: int) -> bool {
    &&& pow10(decimals) <= u128::MAX
    &&& fee_basis_point * pow10(decimals) <= u128::MAX
    &&& amount * fee_rate_atomic(decimals, fee_basis_point) <= u128::MAX
}

pub proof fn lemma_pow10_positive(n: nat)
    ensures
        pow10(n) >= 1,
    decreases n,
{
    if n > 0 {
        lemma_pow10_positive((n - 1) as nat);
    }
}

pub proof fn lemma_pow10_monotone(a: nat, b: nat)
    requires
        a <= b,
    ensures
        pow10(a) <= pow10(b),
    decreases b - a,
{
    if a < b {
        lemma_pow10_monotone(a, (b - 1) as nat);
        lemma_pow10_positive((b - 1) as nat);
    }
}

/// Ten to the power `exp`, or `None` where that does not fit in a `u128`.
fn checked_pow10(exp: u32) -> (r: Option<u128>)
    ensures
        (r is Some) <==> pow10(exp as nat) <= u128::MAX,
        r matches Some(v) ==> v == pow10(exp as nat),
{
    let mut factor: u128 = 1;
    let mut i: u32 = 0;
    while i < exp
        invariant
            i <= exp,
            factor == pow10(i as nat),
        decreases exp - i,
    {
        match factor.checked_mul(10) {
            Some(f) => {
                factor = f;
                i = i + 1;
            },
            None => {
                proof {
                    lemma_pow10_monotone((i + 1) as nat, exp as nat);
                }
                return None;
            },
        }
    }
    Some(factor)
}

/// Computes the fee on `amount` at `fee_basis_point` hundredths of a percent,
/// for a token with `decimals` fractional digits.
///
/// The rate is first scaled to `10^decimals` fixed point and truncated, then
/// applied to `amount` and truncated again. Fails with `Overflow` where an
/// intermediate value does not fit in a `u128`.
pub fn compute_fee(amount: u128, decimals: u32, fee_basis_point: u64) -> (r: Result<u128, ContractError>)
    ensures
        (r is Ok) <==> fee_fits(amount as int, decimals as nat, fee_basis_point as int),
        r matches Ok(fee) ==> fee == fee_of(amount as int, decimals as nat, fee_basis_point as int),
        r matches Err(e) ==> (e == ContractError::Overflow {}),
{
    let factor = match checked_pow10(decimals) {
        Some(f) => f,
        None => return Err(ContractError::Overflow {}),
    };
    proof {
        lemma_pow10_positive(decimals as nat);
    }
    let scaled = match (fee_basis_point as u128).checked_mul(factor) {
        Some(s) => s,
        None => return Err(ContractError::Overflow {}),
    };
    let rate = scaled / BASIS_POINTS_PER_UNIT;
    let product = match amount.checked_mul(rate) {
        Some(p) => p,
        None => return Err(ContractError::Overflow {}),
    };
    Ok(product / factor)
}

/// At a rate of at most 100%, the fee never exceeds the amount it is taken
/// from.
pub proof fn lemma_fee_at_most_amount(amount: u128, decimals: u32, fee_basis_point: u64)
    requires
        fee_basis_point <= BASIS_POINTS_PER_UNIT,
    ensures
        fee_of(amount as int, decimals as nat, fee_basis_point as int) <= amount,
{
    let f = pow10(decimals as nat);
    lemma_pow10_positive(decimals as nat);
    lemma_mul_inequality(fee_basis_point as int, BASIS_POINTS_PER_UNIT as int, f);
    lemma_div_is_ordered(fee_basis_point * f, BASIS_POINTS_PER_UNIT * f, BASIS_POINTS_PER_UNIT as int);
    assert((BASIS_POINTS_PER_UNIT * f) / (BASIS_POINTS_PER_UNIT as int) == f) by {
        lemma_div_multiples_vanish(f, BASIS_POINTS_PER_UNIT as int);
    }
    let rate = fee_rate_atomic(decimals as nat, fee_basis_point as int);
    assert(rate <= f);
    assert(0 <= rate) by (nonlinear_arith)
        requires
            rate == fee_basis_point * f / 10000,
            f >= 1,
            fee_basis_point >= 0,
    ;
    lemma_mul_inequality(rate, f, amount as int);
    assert(amount * rate <= amount * f) by (nonlinear_arith)
        requires
            rate * amount <= f * amount,
    ;
    lemma_div_is_ordered(amount * rate, amount * f, f);
    lemma_div_multiples_vanish(amount as int, f);
    assert(amount * f == f * amount) by (nonlinear_arith);
}

} // verus!
