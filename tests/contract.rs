use sei_transfer::contract::{
    execute, instantiate, query, ExecuteMsg, ExecuteOutcome, Payment, QueryMsg, QueryResponse, Receipt,
    Withdrawal,
};
use sei_transfer::error::ContractError;
use sei_transfer::state::{Config, Ledger};

const OWNER: &str = "owner";
const USER1: &str = "user1";
const USER2: &str = "user2";
const USER3: &str = "user3";
const CW20_ADDR: &str = "cosmos2contract";
const CW20_DECIMALS: u32 = 18;
const FEE_BASIS_POINT: u64 = 100;

fn atomize(number: u128) -> u128 {
    number * 10u128.pow(CW20_DECIMALS)
}

fn default_instantiate() -> Ledger {
    instantiate(Config {
        owner: OWNER.to_string(),
        cw20_addr: CW20_ADDR.to_string(),
        cw20_decimals: CW20_DECIMALS,
        fee_basis_point: FEE_BASIS_POINT,
    })
}

fn receive(
    ledger: &mut Ledger,
    cw20_contract: &str,
    addr1: String,
    addr2: String,
    amount: u128,
) -> Result<Receipt, ContractError> {
    let msg = ExecuteMsg::Receive { amount, addr1, addr2 };
    match execute(ledger, &cw20_contract.to_string(), msg)? {
        ExecuteOutcome::Received(receipt) => Ok(receipt),
        other => panic!("unexpected outcome {:?}", other),
    }
}

fn withdraw(ledger: &mut Ledger, withdrawer: &str, amount: u128) -> Result<Withdrawal, ContractError> {
    let before = query_withdrawable(ledger, withdrawer)?;
    let msg = ExecuteMsg::Withdraw { amount };
    let withdrawal = match execute(ledger, &withdrawer.to_string(), msg)? {
        ExecuteOutcome::Withdrawn(w) => w,
        other => panic!("unexpected outcome {:?}", other),
    };
    assert_eq!(withdrawal.leftover, before.checked_sub(amount).unwrap());
    assert_eq!(
        withdrawal.payment,
        Payment { token: CW20_ADDR.to_string(), recipient: withdrawer.to_string(), amount }
    );
    Ok(withdrawal)
}

fn query_withdrawable(ledger: &Ledger, addr: &str) -> Result<u128, ContractError> {
    match query(ledger, QueryMsg::GetWithdrawable { addr: addr.to_string() })? {
        QueryResponse::Withdrawable(v) => Ok(v),
        other => panic!("unexpected response {:?}", other),
    }
}

fn query_fee_basis_point(ledger: &Ledger) -> u64 {
    match query(ledger, QueryMsg::GetFeeBasisPoint).unwrap() {
        QueryResponse::FeeBasisPoint(v) => v,
        other => panic!("unexpected response {:?}", other),
    }
}

#[test]
fn proper_instantiation() {
    let ledger = default_instantiate();
    let owner = query(&ledger, QueryMsg::GetOwner).unwrap();
    let contract = query(&ledger, QueryMsg::GetCw20Contract).unwrap();
    assert_eq!(owner, QueryResponse::Owner(OWNER.to_string()));
    assert_eq!(contract, QueryResponse::Cw20Contract(CW20_ADDR.to_string()));
}

#[test]
fn set_fee_basis_point() {
    let mut ledger = default_instantiate();
    assert_eq!(query_fee_basis_point(&ledger), 100);
    let msg = ExecuteMsg::SetFeeBasisPoint { fee_basis_point: 200 };
    execute(&mut ledger, &OWNER.to_string(), msg).unwrap();
    assert_eq!(query_fee_basis_point(&ledger), 200);
}

#[test]
fn unauthorised_set_fee_basis_point() {
    let mut ledger = default_instantiate();
    assert_eq!(query_fee_basis_point(&ledger), 100);
    let msg = ExecuteMsg::SetFeeBasisPoint { fee_basis_point: 200 };
    let err = execute(&mut ledger, &USER1.to_string(), msg).unwrap_err();
    assert_eq!(err, ContractError::Unauthorized {});
    assert_eq!(query_fee_basis_point(&ledger), 100);
}

#[test]
fn send_tokens() {
    let mut ledger = default_instantiate();
    assert_eq!(query_withdrawable(&ledger, USER2).unwrap_err(), ContractError::NotFound {});
    assert_eq!(query_withdrawable(&ledger, USER3).unwrap_err(), ContractError::NotFound {});

    receive(&mut ledger, CW20_ADDR, USER2.to_string(), USER3.to_string(), atomize(1_000)).unwrap();

    assert_eq!(query_withdrawable(&ledger, USER2).unwrap(), atomize(495));
    assert_eq!(query_withdrawable(&ledger, USER3).unwrap(), atomize(495));
}

#[test]
fn unauthorised_send_tokens() {
    let mut ledger = default_instantiate();
    let err = receive(&mut ledger, "random_contract", USER2.to_string(), USER3.to_string(), atomize(1_000))
        .unwrap_err();
    assert_eq!(err, ContractError::Unauthorized {});
}

#[test]
fn no_withdrawable_tokens() {
    let mut ledger = default_instantiate();
    let err = withdraw(&mut ledger, USER2, atomize(500)).unwrap_err();
    assert_eq!(err, ContractError::NotFound {});
}

#[test]
fn withdraw_some_tokens() {
    let mut ledger = default_instantiate();
    receive(&mut ledger, CW20_ADDR, USER2.to_string(), USER3.to_string(), atomize(1_000)).unwrap();
    assert_eq!(query_withdrawable(&ledger, USER2).unwrap(), atomize(495));

    withdraw(&mut ledger, USER2, atomize(300)).unwrap();
    assert_eq!(query_withdrawable(&ledger, USER2).unwrap(), atomize(195));
}

#[test]
fn withdraw_all_tokens() {
    let mut ledger = default_instantiate();
    receive(&mut ledger, CW20_ADDR, USER2.to_string(), USER3.to_string(), atomize(1_000)).unwrap();
    assert_eq!(query_withdrawable(&ledger, USER2).unwrap(), atomize(495));

    withdraw(&mut ledger, USER2, atomize(495)).unwrap();
    assert_eq!(query_withdrawable(&ledger, USER2).unwrap_err(), ContractError::NotFound {});
}

#[test]
fn receipt_reports_fee_and_new_totals() {
    let mut ledger = default_instantiate();
    let receipt = receive(&mut ledger, CW20_ADDR, USER2.to_string(), USER3.to_string(), atomize(1_000)).unwrap();
    assert_eq!(receipt, Receipt { fee: atomize(10), total1: atomize(495), total2: atomize(495) });
    let receipt = receive(&mut ledger, CW20_ADDR, USER2.to_string(), USER3.to_string(), atomize(1_000)).unwrap();
    assert_eq!(receipt, Receipt { fee: atomize(10), total1: atomize(990), total2: atomize(990) });
}

#[test]
fn unauthorised_send_leaves_balances_untouched() {
    let mut ledger = default_instantiate();
    receive(&mut ledger, CW20_ADDR, USER2.to_string(), USER3.to_string(), atomize(1_000)).unwrap();
    let err = receive(&mut ledger, USER1, USER2.to_string(), USER3.to_string(), atomize(1_000)).unwrap_err();
    assert_eq!(err, ContractError::Unauthorized {});
    assert_eq!(query_withdrawable(&ledger, USER2).unwrap(), atomize(495));
    assert_eq!(query_withdrawable(&ledger, USER3).unwrap(), atomize(495));
    assert_eq!(query_withdrawable(&ledger, USER1).unwrap_err(), ContractError::NotFound {});
}

#[test]
fn withdraw_more_than_balance_is_overflow() {
    let mut ledger = default_instantiate();
    receive(&mut ledger, CW20_ADDR, USER2.to_string(), USER3.to_string(), atomize(1_000)).unwrap();
    let err = withdraw(&mut ledger, USER2, atomize(496)).unwrap_err();
    assert_eq!(err, ContractError::Overflow {});
    assert_eq!(query_withdrawable(&ledger, USER2).unwrap(), atomize(495));
}

#[test]
fn odd_remainder_goes_to_second_receiver() {
    let mut ledger = instantiate(Config {
        owner: OWNER.to_string(),
        cw20_addr: CW20_ADDR.to_string(),
        cw20_decimals: 0,
        fee_basis_point: 0,
    });
    let receipt = receive(&mut ledger, CW20_ADDR, USER2.to_string(), USER3.to_string(), 7).unwrap();
    assert_eq!(receipt, Receipt { fee: 0, total1: 3, total2: 4 });
}

#[test]
fn same_receiver_twice_gets_both_shares() {
    let mut ledger = default_instantiate();
    let receipt = receive(&mut ledger, CW20_ADDR, USER2.to_string(), USER2.to_string(), atomize(1_000)).unwrap();
    assert_eq!(receipt, Receipt { fee: atomize(10), total1: atomize(495), total2: atomize(990) });
    assert_eq!(query_withdrawable(&ledger, USER2).unwrap(), atomize(990));
}

#[test]
fn zero_share_still_writes_a_row() {
    let mut ledger = instantiate(Config {
        owner: OWNER.to_string(),
        cw20_addr: CW20_ADDR.to_string(),
        cw20_decimals: 0,
        fee_basis_point: 0,
    });
    receive(&mut ledger, CW20_ADDR, USER2.to_string(), USER3.to_string(), 1).unwrap();
    assert_eq!(query_withdrawable(&ledger, USER2).unwrap(), 0);
    assert_eq!(query_withdrawable(&ledger, USER3).unwrap(), 1);
}

#[test]
fn rate_above_whole_fails_with_overflow() {
    let mut ledger = default_instantiate();
    execute(&mut ledger, &OWNER.to_string(), ExecuteMsg::SetFeeBasisPoint { fee_basis_point: 10_001 }).unwrap();
    let err = receive(&mut ledger, CW20_ADDR, USER2.to_string(), USER3.to_string(), atomize(1_000)).unwrap_err();
    assert_eq!(err, ContractError::Overflow {});
    assert_eq!(query_withdrawable(&ledger, USER2).unwrap_err(), ContractError::NotFound {});
}

#[test]
fn credit_overflow_changes_nothing() {
    let mut ledger = instantiate(Config {
        owner: OWNER.to_string(),
        cw20_addr: CW20_ADDR.to_string(),
        cw20_decimals: 0,
        fee_basis_point: 0,
    });
    ledger.set_withdrawable(USER3.to_string(), u128::MAX);
    let err = receive(&mut ledger, CW20_ADDR, USER2.to_string(), USER3.to_string(), 10).unwrap_err();
    assert_eq!(err, ContractError::Overflow {});
    assert_eq!(ledger.withdrawable(&USER2.to_string()), None);
    assert_eq!(ledger.withdrawable(&USER3.to_string()), Some(u128::MAX));
}
