use vstd::prelude::*;

use crate::error::ContractError;
use crate::split::{split_of, split_transfer, splittable};
use crate::state::{credit_result, debit_result, withdrawable_result, Balances, Config, Ledger};

verus! {

/// What an accepted transfer produced: the fee, and each receiver's balance
/// right after it was credited.
#[derive(Clone, Copy, Debug, PartialEq, Eq, Structural)]
pub struct Receipt {
    pub fee: u128,
    pub total1: u128,
    pub total2: u128,
}

/// An outbound instruction: move `amount` of `token` to `recipient`.
#[derive(Clone, Debug, PartialEq, Eq)]
pub struct Payment {
    pub token: String,
    pub recipient: String,
    pub amount: u128,
}

/// What an accepted withdrawal produced: the balance left, and the payment.
#[derive(Clone, Debug, PartialEq, Eq)]
pub struct Withdrawal {
    pub leftover: u128,
    pub payment: Payment,
}

/// A state-changing request.
#[derive(Clone, Debug, PartialEq, Eq)]
pub enum ExecuteMsg {
    /// A transfer of `amount` to split between `addr1` and `addr2`.
    Receive { amount: u128, addr1: String, addr2: String },
    /// A withdrawal of `amount` by the caller.
    Withdraw { amount: u128 },
    /// A new fee rate.
    SetFeeBasisPoint { fee_basis_point: u64 },
}

/// The result of an accepted state-changing request.
#[derive(Clone, Debug, PartialEq, Eq)]
pub enum ExecuteOutcome {
    Received(Receipt),
    Withdrawn(Withdrawal),
    FeeBasisPointSet,
}

/// A read-only request.
#[derive(Clone, Debug, PartialEq, Eq)]
pub enum QueryMsg {
    GetOwner,
    GetCw20Contract,
    GetWithdrawable { addr: String },
    GetFeeBasisPoint,
}

/// The answer to a read-only request.
#[derive(Clone, Debug, PartialEq, Eq)]
pub enum QueryResponse {
    Owner(String),
    Cw20Contract(String),
    Withdrawable(u128),
    FeeBasisPoint(u64),
}

/// Splitting `amount` from `sender` and crediting both receivers, in order.
pub open spec fn receive_result(
    m: Balances,
    config: Config,
    sender: Seq<char>,
    addr1: Seq<char>,
    addr2: Seq<char>,
    amount: u128,
) -> Result<(Receipt, Balances), ContractError> {
    let decimals = config.cw20_decimals as nat;
    let rate = config.fee_basis_point as int;
    if sender != config.cw20_addr@ {
        Err(ContractError::Unauthorized {})
    } else if !splittable(amount as int, decimals, rate) {
        Err(ContractError::Overflow {})
    } else {
        let s = split_of(amount as int, decimals, rate);
        match credit_result(m, addr1, s.share1) {
            Err(e) => Err(e),
            Ok((total1, m1)) => match credit_result(m1, addr2, s.share2) {
                Err(e) => Err(e),
                Ok((total2, m2)) => Ok((Receipt { fee: s.fee, total1, total2 }, m2)),
            },
        }
    }
}

/// Accepts `sender` only where it is `expected`; else fails with `Unauthorized`.
pub fn check_sender(expected: &String, sender: &String) -> (r: Result<(), ContractError>)
    ensures
        (r is Ok) <==> expected@ == sender@,
        r matches Err(e) ==> (e == ContractError::Unauthorized {}),
{
    if *expected == *sender {
        Ok(())
    } else {
        Err(ContractError::Unauthorized {})
    }
}

/// A ledger with `config` and no balance rows.
pub fn instantiate(config: Config) -> (r: Ledger)
    ensures
        r.wf(),
        r.settings() == config,
        r.balances() == Map::<Seq<char>, u128>::empty(),
{
    Ledger::new(config)
}

impl Ledger {
    /// Splits `amount` between `addr1` and `addr2` after the fee and credits
    /// both. A failure changes nothing.
    pub fn receive_set_receivers(&mut self, addr1: &String, addr2: &String, amount: u128) -> (r:
        Result<Receipt, ContractError>)
        requires
            old(self).wf(),
        ensures
            final(self).wf(),
            final(self).settings() == old(self).settings(),
            match receive_result(
                old(self).balances(),
                old(self).settings(),
                old(self).settings().cw20_addr@,
                addr1@,
                addr2@,
                amount,
            ) {
                Ok((receipt, m)) => r == Ok::<Receipt, ContractError>(receipt) && final(self).balances() == m,
                Err(e) => r == Err::<Receipt, ContractError>(e) && final(self).balances() == old(self).balances(),
            },
    {
        let decimals = self.config().cw20_decimals;
        let rate = self.config().fee_basis_point;
        let s = match split_transfer(amount, decimals, rate) {
            Ok(s) => s,
            Err(e) => return Err(e),
        };
        let current1 = match self.withdrawable(addr1) {
            Some(v) => v,
            None => 0,
        };
        let total1 = match current1.checked_add(s.share1) {
            Some(t) => t,
            None => return Err(ContractError::Overflow {}),
        };
        let current2 = if *addr2 == *addr1 {
            total1
        } else {
            match self.withdrawable(addr2) {
                Some(v) => v,
                None => 0,
            }
        };
        let total2 = match current2.checked_add(s.share2) {
            Some(t) => t,
            None => return Err(ContractError::Overflow {}),
        };
        self.set_withdrawable(addr1.clone(), total1);
        self.set_withdrawable(addr2.clone(), total2);
        Ok(Receipt { fee: s.fee, total1, total2 })
    }

    /// Handles a transfer notification from `sender`: only the configured
    /// token contract is accepted. A failure changes nothing.
    pub fn execute_receive(&mut self, sender: &String, addr1: &String, addr2: &String, amount: u128) -> (r:
        Result<Receipt, ContractError>)
        requires
            old(self).wf(),
        ensures
            final(self).wf(),
            final(self).settings() == old(self).settings(),
            match receive_result(old(self).balances(), old(self).settings(), sender@, addr1@, addr2@, amount) {
                Ok((receipt, m)) => r == Ok::<Receipt, ContractError>(receipt) && final(self).balances() == m,
                Err(e) => r == Err::<Receipt, ContractError>(e) && final(self).balances() == old(self).balances(),
            },
    {
        match check_sender(&self.config().cw20_addr, sender) {
            Ok(()) => {},
            Err(e) => return Err(e),
        }
        self.receive_set_receivers(addr1, addr2, amount)
    }

    /// Pays `amount` out of `sender`'s balance: the balance is debited and a
    /// payment of `amount` tokens to `sender` is issued. A failure changes
    /// nothing.
    pub fn execute_withdraw(&mut self, sender: &String, amount: u128) -> (r: Result<Withdrawal, ContractError>)
        requires
            old(self).wf(),
        ensures
            final(self).wf(),
            final(self).settings() == old(self).settings(),
            match debit_result(old(self).balances(), sender@, amount) {
                Ok((rest, m)) => final(self).balances() == m && r == Ok::<Withdrawal, ContractError>(
                    Withdrawal {
                        leftover: rest,
                        payment: Payment { token: old(self).settings().cw20_addr, recipient: *sender, amount },
                    },
                ),
                Err(e) => r == Err::<Withdrawal, ContractError>(e) && final(self).balances() == old(self).balances(),
            },
    {
        let leftover = match self.debit(sender, amount) {
            Ok(v) => v,
            Err(e) => return Err(e),
        };
        let token = self.config().cw20_addr.clone();
        Ok(Withdrawal { leftover, payment: Payment { token, recipient: sender.clone(), amount } })
    }

    /// Sets the fee rate; only the owner may. A failure changes nothing.
    pub fn execute_set_fee_basis_point(&mut self, sender: &String, fee_basis_point: u64) -> (r: Result<
        (),
        ContractError,
    >)
        requires
            old(self).wf(),
        ensures
            final(self).wf(),
            final(self).balances() == old(self).balances(),
            final(self).settings().owner == old(self).settings().owner,
            final(self).settings().cw20_addr == old(self).settings().cw20_addr,
            final(self).settings().cw20_decimals == old(self).settings().cw20_decimals,
            (r is Ok) <==> sender@ == old(self).settings().owner@,
            r is Ok ==> final(self).settings().fee_basis_point == fee_basis_point,
            r is Err ==> final(self).settings().fee_basis_point == old(self).settings().fee_basis_point,
            r matches Err(e) ==> (e == ContractError::Unauthorized {}),
    {
        match check_sender(&self.config().owner, sender) {
            Ok(()) => {},
            Err(e) => return Err(e),
        }
        self.set_fee_basis_point(fee_basis_point);
        Ok(())
    }

    /// The owner's account.
    pub fn query_owner(&self) -> (r: String)
        ensures
            r@ == self.settings().owner@,
    {
        self.config().owner.clone()
    }

    /// The trusted token contract's account.
    pub fn query_cw20_contract(&self) -> (r: String)
        ensures
            r@ == self.settings().cw20_addr@,
    {
        self.config().cw20_addr.clone()
    }

    /// The balance of `addr`; fails with `NotFound` where it has no row.
    pub fn query_withdrawable(&self, addr: &String) -> (r: Result<u128, ContractError>)
        requires
            self.wf(),
        ensures
            r == withdrawable_result(self.balances(), addr@),
    {
        match self.withdrawable(addr) {
            Some(v) => Ok(v),
            None => Err(ContractError::NotFound {}),
        }
    }

    /// The current fee rate.
    pub fn query_fee_basis_point(&self) -> (r: u64)
        ensures
            r == self.settings().fee_basis_point,
    {
        self.config().fee_basis_point
    }
}

/// A transfer notification from anyone but the configured token contract is
/// refused as unauthorized, whatever else it holds.
pub proof fn lemma_foreign_sender_rejected(
    m: Balances,
    config: Config,
    sender: Seq<char>,
    addr1: Seq<char>,
    addr2: Seq<char>,
    amount: u128,
)
    requires
        sender != config.cw20_addr@,
    ensures
        receive_result(m, config, sender, addr1, addr2, amount) == Err::<(Receipt, Balances), ContractError>(
            ContractError::Unauthorized {},
        ),
{
}

/// Applies the state-changing request `msg` from `sender`. A failure changes
/// nothing.
pub fn execute(ledger: &mut Ledger, sender: &String, msg: ExecuteMsg) -> (r: Result<ExecuteOutcome, ContractError>)
    requires
        old(ledger).wf(),
    ensures
        final(ledger).wf(),
        final(ledger).settings().owner == old(ledger).settings().owner,
        final(ledger).settings().cw20_addr == old(ledger).settings().cw20_addr,
        final(ledger).settings().cw20_decimals == old(ledger).settings().cw20_decimals,
        r is Err ==> final(ledger).balances() == old(ledger).balances(),
        r is Err ==> final(ledger).settings() == old(ledger).settings(),
        match msg {
            ExecuteMsg::Receive { amount, addr1, addr2 } => match receive_result(
                old(ledger).balances(),
                old(ledger).settings(),
                sender@,
                addr1@,
                addr2@,
                amount,
            ) {
                Ok((receipt, m)) => r == Ok::<ExecuteOutcome, ContractError>(ExecuteOutcome::Received(receipt))
                    && final(ledger).balances() == m && final(ledger).settings() == old(ledger).settings(),
                Err(e) => r == Err::<ExecuteOutcome, ContractError>(e),
            },
            ExecuteMsg::Withdraw { amount } => match debit_result(old(ledger).balances(), sender@, amount) {
                Ok((rest, m)) => final(ledger).balances() == m && final(ledger).settings() == old(ledger).settings()
                    && r == Ok::<ExecuteOutcome, ContractError>(
                    ExecuteOutcome::Withdrawn(
                        Withdrawal {
                            leftover: rest,
                            payment: Payment { token: old(ledger).settings().cw20_addr, recipient: *sender, amount },
                        },
                    ),
                ),
                Err(e) => r == Err::<ExecuteOutcome, ContractError>(e),
            },
            ExecuteMsg::SetFeeBasisPoint { fee_basis_point } => if sender@ == old(ledger).settings().owner@ {
                r == Ok::<ExecuteOutcome, ContractError>(ExecuteOutcome::FeeBasisPointSet)
                    && final(ledger).balances() == old(ledger).balances()
                    && final(ledger).settings().fee_basis_point == fee_basis_point
            } else {
                r == Err::<ExecuteOutcome, ContractError>(ContractError::Unauthorized {})
            },
        },
{
    match msg {
        ExecuteMsg::Receive { amount, addr1, addr2 } => match ledger.execute_receive(sender, &addr1, &addr2, amount) {
            Ok(receipt) => Ok(ExecuteOutcome::Received(receipt)),
            Err(e) => Err(e),
        },
        ExecuteMsg::Withdraw { amount } => match ledger.execute_withdraw(sender, amount) {
            Ok(w) => Ok(ExecuteOutcome::Withdrawn(w)),
            Err(e) => Err(e),
        },
        ExecuteMsg::SetFeeBasisPoint { fee_basis_point } => match ledger.execute_set_fee_basis_point(
            sender,
            fee_basis_point,
        ) {
            Ok(()) => Ok(ExecuteOutcome::FeeBasisPointSet),
            Err(e) => Err(e),
        },
    }
}

/// Answers the read-only request `msg`.
pub fn query(ledger: &Ledger, msg: QueryMsg) -> (r: Result<QueryResponse, ContractError>)
    requires
        ledger.wf(),
    ensures
        match msg {
            QueryMsg::GetOwner => r matches Ok(QueryResponse::Owner(o)) && o@ == ledger.settings().owner@,
            QueryMsg::GetCw20Contract => r matches Ok(QueryResponse::Cw20Contract(c)) && c@
                == ledger.settings().cw20_addr@,
            QueryMsg::GetWithdrawable { addr } => match withdrawable_result(ledger.balances(), addr@) {
                Ok(v) => r == Ok::<QueryResponse, ContractError>(QueryResponse::Withdrawable(v)),
                Err(e) => r == Err::<QueryResponse, ContractError>(e),
            },
            QueryMsg::GetFeeBasisPoint => r == Ok::<QueryResponse, ContractError>(
                QueryResponse::FeeBasisPoint(ledger.settings().fee_basis_point),
            ),
        },
{
    match msg {
        QueryMsg::GetOwner => Ok(QueryResponse::Owner(ledger.query_owner())),
        QueryMsg::GetCw20Contract => Ok(QueryResponse::Cw20Contract(ledger.query_cw20_contract())),
        QueryMsg::GetWithdrawable { addr } => match ledger.query_withdrawable(&addr) {
            Ok(v) => Ok(QueryResponse::Withdrawable(v)),
            Err(e) => Err(e),
        },
        QueryMsg::GetFeeBasisPoint => Ok(QueryResponse::FeeBasisPoint(ledger.query_fee_basis_point())),
    }
}

} // verus!
