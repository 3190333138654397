use vstd::prelude::*;

verus! {

/// Why an operation on the ledger was refused.
///
/// A refused operation leaves the ledger as it was.
#[derive(Clone, Copy, Debug, PartialEq, Eq, Structural)]
pub enum ContractError {
    /// A required row is absent: the account has no withdrawable balance.
    NotFound {},
    /// An integer result does not fit its width, or would be negative.
    Overflow {},
    /// A division by zero was requested. The ledger's own divisors are never
    /// zero, so its operations do not report this.
    DivideByZero {},
    /// The caller is not the principal the operation requires.
    Unauthorized {},
    /// A withdrawal asks for more than a limit allows. The ledger sets no such
    /// limit, so its operations do not report this.
    WithdrawalLimitExceeded {},
}

} // verus!
