use vstd::prelude::*;

use crate::error::ContractError;
use crate::fee::{compute_fee, fee_fits, fee_of};

verus! {

/// How one incoming amount is divided: the fee, and the two receivers' shares.
#[derive(Clone, Copy, Debug, PartialEq, Eq, Structural)]
pub struct TransferSplit {
    pub fee: u128,
    pub share1: u128,
    pub share2: u128,
}

/// Whether `amount` can be split: the fee is computable and does not exceed it.
pub open spec fn splittable(amount: int, decimals: nat, fee_basis_point: int) -> bool {
    &&& fee_fits(amount, decimals, fee_basis_point)
    &&& fee_of(amount, decimals, fee_basis_point) <= amount
}

/// The split of `amount`: the fee comes off first, the first receiver gets
/// half of the rest rounded down, the second receiver the remainder.
pub open spec fn split_of(amount: int, decimals: nat, fee_basis_point: int) -> TransferSplit {
    let fee = fee_of(amount, decimals, fee_basis_point);
    let share1 = (amount - fee) / 2;
    TransferSplit { fee: fee as u128, share1: share1 as u128, share2: (amount - fee - share1) as u128 }
}

/// Splits `amount` between two receivers after taking the fee.
///
/// Fails with `Overflow` where the fee cannot be computed in a `u128` or
/// exceeds `amount` (a rate above 100%). No atomic unit is lost or created,
/// and the second receiver gets the odd unit where there is one.
pub fn split_transfer(amount: u128, decimals: u32, fee_basis_point: u64) -> (r: Result<TransferSplit, ContractError>)
    ensures
        (r is Ok) <==> splittable(amount as int, decimals as nat, fee_basis_point as int),
        r matches Ok(s) ==> s == split_of(amount as int, decimals as nat, fee_basis_point as int),
        r matches Ok(s) ==> s.share1 + s.share2 + s.fee == amount,
        r matches Ok(s) ==> s.share2 == s.share1 || s.share2 == s.share1 + 1,
        r matches Err(e) ==> (e == ContractError::Overflow {}),
{
    let fee = match compute_fee(amount, decimals, fee_basis_point) {
        Ok(f) => f,
        Err(e) => return Err(e),
    };
    let after_fee = match amount.checked_sub(fee) {
        Some(a) => a,
        None => return Err(ContractError::Overflow {}),
    };
    let share1 = after_fee / 2;
    let share2 = after_fee - share1;
    Ok(TransferSplit { fee, share1, share2 })
}

} // verus!
