use vstd::prelude::*;

use crate::error::ContractError;

verus! {

/// The single configuration record.
#[derive(Clone, Debug)]
pub struct Config {
    /// The only account that may change the fee rate.
    pub owner: String,
    /// The token contract trusted as the sole source of credited transfers.
    pub cw20_addr: String,
    /// Fractional digits of the token's atomic unit.
    pub cw20_decimals: u32,
    /// Fee rate in hundredths of a percent.
    pub fee_basis_point: u64,
}

/// Balances by account, as a mathematical map.
pub type Balances = Map<Seq<char>, u128>;

/// The stored balance of `account`, or zero where it has no row.
pub open spec fn balance_or_zero(m: Balances, account: Seq<char>) -> int {
    if m.contains_key(account) {
        m[account] as int
    } else {
        0
    }
}

/// Reading the balance of `account`: there is no implicit zero row.
pub open spec fn withdrawable_result(m: Balances, account: Seq<char>) -> Result<u128, ContractError> {
    if m.contains_key(account) {
        Ok(m[account])
    } else {
        Err(ContractError::NotFound {})
    }
}

/// Adding `amount` to `account`: the row is created where absent and always
/// written, even with a zero total.
pub open spec fn credit_result(m: Balances, account: Seq<char>, amount: u128) -> Result<
    (u128, Balances),
    ContractError,
> {
    let total = balance_or_zero(m, account) + amount;
    if total > u128::MAX {
        Err(ContractError::Overflow {})
    } else {
        Ok((total as u128, m.insert(account, total as u128)))
    }
}

/// Taking `amount` from `account`: the row must exist and hold at least
/// `amount`; a row that falls to zero is removed.
pub open spec fn debit_result(m: Balances, account: Seq<char>, amount: u128) -> Result<
    (u128, Balances),
    ContractError,
> {
    if !m.contains_key(account) {
        Err(ContractError::NotFound {})
    } else if amount > m[account] {
        Err(ContractError::Overflow {})
    } else {
        let rest = (m[account] - amount) as u128;
        if rest == 0 {
            Ok((rest, m.remove(account)))
        } else {
            Ok((rest, m.insert(account, rest)))
        }
    }
}

/// An account that no operation has touched has no row: reading its balance
/// fails with `NotFound` and never gives zero.
pub proof fn lemma_fresh_account_not_found(account: Seq<char>)
    ensures
        withdrawable_result(Map::empty(), account) == Err::<u128, ContractError>(ContractError::NotFound {}),
{
}

/// Debiting an account's whole balance leaves nothing and removes its row, so
/// that reading its balance afterwards fails with `NotFound`.
pub proof fn lemma_full_debit_removes_row(m: Balances, account: Seq<char>)
    requires
        m.contains_key(account),
    ensures
        debit_result(m, account, m[account]) == Ok::<(u128, Balances), ContractError>((0u128, m.remove(account))),
        withdrawable_result(m.remove(account), account) == Err::<u128, ContractError>(ContractError::NotFound {}),
{
}

/// The configuration record and the withdrawable balances.
pub struct Ledger {
    config: Config,
    rows: Vec<(String, u128)>,
    balances: Ghost<Balances>,
}

impl Ledger {
    /// The rows hold each account at most once, and hold exactly the balances.
    pub closed spec fn wf(&self) -> bool {
        &&& forall|i: int|
            0 <= i < self.rows@.len() ==> {
                &&& self.balances@.contains_key(#[trigger] self.rows@[i].0@)
                &&& self.balances@[self.rows@[i].0@] == self.rows@[i].1
            }
        &&& forall|k: Seq<char>|
            #[trigger] self.balances@.contains_key(k) ==> exists|i: int|
                0 <= i < self.rows@.len() && #[trigger] self.rows@[i].0@ == k
        &&& forall|i: int, j: int|
            0 <= i < j < self.rows@.len() ==> #[trigger] self.rows@[i].0@ != #[trigger] self.rows@[j].0@
    }

    /// The withdrawable balance of each account that has a row.
    pub closed spec fn balances(&self) -> Balances {
        self.balances@
    }

    /// The configuration record.
    pub closed spec fn settings(&self) -> Config {
        self.config
    }

    /// A ledger with `config` and no balance rows.
    pub(crate) fn new(config: Config) -> (r: Ledger)
        ensures
            r.wf(),
            r.settings() == config,
            r.balances() == Map::<Seq<char>, u128>::empty(),
    {
        Ledger { config, rows: Vec::new(), balances: Ghost(Map::empty()) }
    }

    /// The configuration record.
    pub fn config(&self) -> (r: &Config)
        ensures
            *r == self.settings(),
    {
        &self.config
    }

    /// Replaces the fee rate, keeping the other fields of the configuration.
    pub fn set_fee_basis_point(&mut self, fee_basis_point: u64)
        requires
            old(self).wf(),
        ensures
            final(self).wf(),
            final(self).balances() == old(self).balances(),
            final(self).settings().owner == old(self).settings().owner,
            final(self).settings().cw20_addr == old(self).settings().cw20_addr,
            final(self).settings().cw20_decimals == old(self).settings().cw20_decimals,
            final(self).settings().fee_basis_point == fee_basis_point,
    {
        self.config.fee_basis_point = fee_basis_point;
        assert(self.rows@ == old(self).rows@ && self.balances@ == old(self).balances@);
    }

    /// The position of `account`'s row, if it has one.
    fn find(&self, account: &String) -> (r: Option<usize>)
        requires
            self.wf(),
        ensures
            r matches Some(i) ==> i < self.rows@.len() && self.rows@[i as int].0@ == account@,
            (r is None) <==> !self.balances().contains_key(account@),
    {
        let mut i: usize = 0;
        while i < self.rows.len()
            invariant
                self.wf(),
                i <= self.rows@.len(),
                forall|j: int| 0 <= j < i ==> #[trigger] self.rows@[j].0@ != account@,
            decreases self.rows@.len() - i,
        {
            if self.rows[i].0 == *account {
                return Some(i);
            }
            i = i + 1;
        }
        None
    }

    /// The withdrawable balance of `account`, or `None` where it has no row.
    pub fn withdrawable(&self, account: &String) -> (r: Option<u128>)
        requires
            self.wf(),
        ensures
            r == (if self.balances().contains_key(account@) {
                Some(self.balances()[account@])
            } else {
                None::<u128>
            }),
    {
        match self.find(account) {
            Some(i) => Some(self.rows[i].1),
            None => None,
        }
    }

    /// Writes `amount` as the balance of `account`, creating the row where absent.
    pub fn set_withdrawable(&mut self, account: String, amount: u128)
        requires
            old(self).wf(),
        ensures
            final(self).wf(),
            final(self).settings() == old(self).settings(),
            final(self).balances() == old(self).balances().insert(account@, amount),
    {
        let ghost key = account@;
        let ghost m = self.balances@.insert(key, amount);
        match self.find(&account) {
            Some(i) => {
                let ghost before = self.rows@;
                self.rows.set(i, (account, amount));
                self.balances = Ghost(m);
                assert forall|k: Seq<char>| #[trigger] m.contains_key(k) implies exists|j: int|
                    0 <= j < self.rows@.len() && #[trigger] self.rows@[j].0@ == k by {
                    if k != key {
                        let j = choose|j: int| 0 <= j < before.len() && #[trigger] before[j].0@ == k;
                        assert(self.rows@[j].0@ == k);
                    } else {
                        assert(self.rows@[i as int].0@ == k);
                    }
                }
            },
            None => {
                let ghost before = self.rows@;
                self.rows.push((account, amount));
                self.balances = Ghost(m);
                assert forall|k: Seq<char>| #[trigger] m.contains_key(k) implies exists|j: int|
                    0 <= j < self.rows@.len() && #[trigger] self.rows@[j].0@ == k by {
                    if k != key {
                        let j = choose|j: int| 0 <= j < before.len() && #[trigger] before[j].0@ == k;
                        assert(self.rows@[j].0@ == k);
                    } else {
                        assert(self.rows@[before.len() as int].0@ == k);
                    }
                }
            },
        }
    }

    /// Deletes `account`'s row, if it has one.
    pub fn remove_withdrawable(&mut self, account: &String)
        requires
            old(self).wf(),
        ensures
            final(self).wf(),
            final(self).settings() == old(self).settings(),
            final(self).balances() == old(self).balances().remove(account@),
    {
        let ghost key = account@;
        let ghost m = self.balances@.remove(key);
        match self.find(account) {
            Some(i) => {
                let ghost before = self.rows@;
                self.rows.remove(i);
                self.balances = Ghost(m);
                assert(self.rows@ == before.remove(i as int));
                assert forall|j: int| 0 <= j < self.rows@.len() implies #[trigger] self.rows@[j].0@
                    != key by {
                    if j < i {
                        assert(before[j].0@ != before[i as int].0@);
                    } else {
                        assert(before[j + 1].0@ != before[i as int].0@);
                    }
                }
                assert forall|k: Seq<char>| #[trigger] m.contains_key(k) implies exists|j: int|
                    0 <= j < self.rows@.len() && #[trigger] self.rows@[j].0@ == k by {
                    let j = choose|j: int| 0 <= j < before.len() && #[trigger] before[j].0@ == k;
                    if j < i {
                        assert(self.rows@[j].0@ == k);
                    } else {
                        assert(self.rows@[j - 1].0@ == k);
                    }
                }
                assert forall|a: int, b: int| 0 <= a < b < self.rows@.len() implies #[trigger] self.rows@[a].0@
                    != #[trigger] self.rows@[b].0@ by {
                    let a0 = if a < i { a } else { a + 1 };
                    let b0 = if b < i { b } else { b + 1 };
                    assert(self.rows@[a] == before[a0]);
                    assert(self.rows@[b] == before[b0]);
                }
            },
            None => {
                assert(m =~= self.balances@);
            },
        }
    }

    /// Adds `amount` to the balance of `account`, creating the row where absent.
    /// Returns the new balance; fails with `Overflow` where it does not fit.
    pub fn credit(&mut self, account: &String, amount: u128) -> (r: Result<u128, ContractError>)
        requires
            old(self).wf(),
        ensures
            final(self).wf(),
            final(self).settings() == old(self).settings(),
            match credit_result(old(self).balances(), account@, amount) {
                Ok((total, m)) => r == Ok::<u128, ContractError>(total) && final(self).balances() == m,
                Err(e) => r == Err::<u128, ContractError>(e) && final(self).balances() == old(self).balances(),
            },
    {
        let current = match self.withdrawable(account) {
            Some(v) => v,
            None => 0,
        };
        match current.checked_add(amount) {
            Some(total) => {
                self.set_withdrawable(account.clone(), total);
                Ok(total)
            },
            None => Err(ContractError::Overflow {}),
        }
    }

    /// Takes `amount` from the balance of `account` and returns what is left;
    /// a row that falls to zero is removed. Fails with `NotFound` where the
    /// account has no row, with `Overflow` where `amount` exceeds its balance.
    pub fn debit(&mut self, account: &String, amount: u128) -> (r: Result<u128, ContractError>)
        requires
            old(self).wf(),
        ensures
            final(self).wf(),
            final(self).settings() == old(self).settings(),
            match debit_result(old(self).balances(), account@, amount) {
                Ok((rest, m)) => r == Ok::<u128, ContractError>(rest) && final(self).balances() == m,
                Err(e) => r == Err::<u128, ContractError>(e) && final(self).balances() == old(self).balances(),
            },
    {
        let current = match self.withdrawable(account) {
            Some(v) => v,
            None => return Err(ContractError::NotFound {}),
        };
        let rest = match current.checked_sub(amount) {
            Some(v) => v,
            None => return Err(ContractError::Overflow {}),
        };
        if rest == 0 {
            self.remove_withdrawable(account);
        } else {
            self.set_withdrawable(account.clone(), rest);
        }
        Ok(rest)
    }
}

} // verus!
