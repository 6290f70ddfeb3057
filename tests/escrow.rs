use anchor_escrow::contract::{
    check_confirm, check_deposit, claim_deposits, confirm_delivery, deposit, instantiate,
    query_payment_value, query_state, record_deposit, settle,
};
use anchor_escrow::error::ContractError;
use anchor_escrow::helpers::{get_taxed_coin, get_ust_deposited, net_of_tax, RATE_SCALE};
use anchor_escrow::msg::{InstantiateMsg, Instruction};
use anchor_escrow::state::{Coin, EscrowStatus, State, PAYMENT_DENOM};
use cosmwasm_bignumber::Uint256;
use cosmwasm_std::testing::{MockApi, MockQuerier, MockQuerierCustomHandlerResult, MockStorage};
use cosmwasm_std::{to_binary, ContractResult, Decimal, OwnedDeps, SystemResult, Uint128};
use terra_cosmwasm::{TaxCapResponse, TaxRateResponse, TerraQuery, TerraQueryWrapper};

type TerraDeps = OwnedDeps<MockStorage, MockApi, MockQuerier<TerraQueryWrapper>>;

fn ledger(rate_percent: u64, cap: u128) -> TerraDeps {
    let querier = MockQuerier::<TerraQueryWrapper>::new(&[]).with_custom_handler(
        move |q: &TerraQueryWrapper| -> MockQuerierCustomHandlerResult {
            match &q.query_data {
                TerraQuery::TaxRate {} => SystemResult::Ok(ContractResult::Ok(
                    to_binary(&TaxRateResponse { rate: Decimal::percent(rate_percent) }).unwrap(),
                )),
                TerraQuery::TaxCap { .. } => SystemResult::Ok(ContractResult::Ok(
                    to_binary(&TaxCapResponse { cap: Uint128::new(cap) }).unwrap(),
                )),
                _ => panic!("unexpected query"),
            }
        },
    );
    OwnedDeps { storage: MockStorage::default(), api: MockApi::default(), querier }
}

fn unreachable_ledger() -> TerraDeps {
    OwnedDeps {
        storage: MockStorage::default(),
        api: MockApi::default(),
        querier: MockQuerier::<TerraQueryWrapper>::new(&[]),
    }
}

fn s(x: &str) -> String {
    x.to_string()
}

fn fresh() -> State {
    instantiate(
        s("arbiter"),
        InstantiateMsg {
            buyer: s("buyer"),
            seller: s("seller"),
            anchor_market_contract: s("market"),
            anchor_aust_contract: s("aust"),
        },
    )
}

fn uusd(amount: u128) -> Coin {
    Coin::new(amount, s("uusd"))
}

fn paid(amount: u128) -> State {
    let mut st = fresh();
    record_deposit(&mut st, amount, 0);
    st
}

#[test]
fn instantiate_starts_awaiting_payment() {
    let st = fresh();
    assert_eq!(st.arbiter, "arbiter");
    assert_eq!(st.buyer, "buyer");
    assert_eq!(st.seller, "seller");
    assert_eq!(st.escrow_status, EscrowStatus::AwaitingPayment);
    assert_eq!(st.payment_denom, PAYMENT_DENOM);
    assert_eq!(st.payment_denom, "uusd");
    assert_eq!(st.buyer_payment, uusd(0));
    assert_eq!(st.anchor_market_contract, "market");
    assert_eq!(st.anchor_aust_contract, "aust");
}

#[test]
fn end_to_end_with_one_percent_tax() {
    let deps = ledger(1, 1_000_000);
    let mut st = fresh();
    let out = deposit(deps.as_ref(), &mut st, &s("buyer"), &vec![uusd(1000)]).unwrap();
    assert_eq!(st.buyer_payment, uusd(990));
    assert_eq!(st.escrow_status, EscrowStatus::AwaitingDelivery);
    assert_eq!(out, vec![Instruction::DepositStable { market: s("market"), coin: uusd(990) }]);

    let out = claim_deposits(&st, &s("arbiter"), 955).unwrap();
    assert_eq!(
        out,
        vec![Instruction::RedeemStable { token: s("aust"), market: s("market"), amount: 955 }]
    );
    assert_eq!(st.escrow_status, EscrowStatus::AwaitingDelivery);

    // with yield on top of the principal the balance is not exactly the principal
    let before = st.snapshot();
    let err = confirm_delivery(deps.as_ref(), &mut st, &s("buyer"), 1040).unwrap_err();
    assert!(matches!(err, ContractError::FundsNotReceivedFromAnchor {}));
    assert_eq!(st, before);

    let out = confirm_delivery(deps.as_ref(), &mut st, &s("buyer"), 990).unwrap();
    assert_eq!(
        out,
        vec![
            Instruction::Send { to: s("seller"), coin: uusd(980) },
            Instruction::Send { to: s("buyer"), coin: uusd(0) },
        ]
    );
    assert_eq!(st.escrow_status, EscrowStatus::Delivered);
}

#[test]
fn settlement_splits_principal_and_yield() {
    let mut st = paid(990);
    let out = settle(&mut st, 1040, 10, 1);
    assert_eq!(
        out,
        vec![
            Instruction::Send { to: s("seller"), coin: uusd(980) },
            Instruction::Send { to: s("buyer"), coin: uusd(49) },
        ]
    );
    assert_eq!(st.escrow_status, EscrowStatus::Delivered);
    assert_eq!(st.buyer_payment, uusd(990));
}

#[test]
fn confirm_before_redemption_settles_fails() {
    let deps = ledger(1, 1_000_000);
    let mut st = paid(990);
    let before = st.snapshot();
    let err = confirm_delivery(deps.as_ref(), &mut st, &s("buyer"), 0).unwrap_err();
    assert!(matches!(err, ContractError::FundsNotReceivedFromAnchor {}));
    assert_eq!(st, before);
}

#[test]
fn deposit_by_non_buyer_is_unauthorized() {
    let deps = ledger(1, 1_000_000);
    let mut st = fresh();
    let before = st.snapshot();
    let err = deposit(deps.as_ref(), &mut st, &s("seller"), &vec![uusd(1000)]).unwrap_err();
    assert!(matches!(err, ContractError::Unauthorized {}));
    assert_eq!(st, before);
}

#[test]
fn second_deposit_is_refused() {
    let deps = ledger(1, 1_000_000);
    let mut st = fresh();
    deposit(deps.as_ref(), &mut st, &s("buyer"), &vec![uusd(1000)]).unwrap();
    let before = st.snapshot();
    let err = deposit(deps.as_ref(), &mut st, &s("buyer"), &vec![uusd(500)]).unwrap_err();
    assert!(matches!(err, ContractError::AlreadyDeposited {}));
    assert_eq!(st, before);
}

#[test]
fn deposit_after_delivery_is_refused() {
    let deps = ledger(1, 1_000_000);
    let mut st = paid(990);
    settle(&mut st, 990, 0, 0);
    let err = deposit(deps.as_ref(), &mut st, &s("buyer"), &vec![uusd(1000)]).unwrap_err();
    assert!(matches!(err, ContractError::AlreadyDelivered {}));
    let err = claim_deposits(&st, &s("arbiter"), 1).unwrap_err();
    assert!(matches!(err, ContractError::AlreadyDelivered {}));
    let err = confirm_delivery(deps.as_ref(), &mut st, &s("buyer"), 990).unwrap_err();
    assert!(matches!(err, ContractError::AlreadyDelivered {}));
}

#[test]
fn confirm_before_deposit_is_refused_even_at_zero_balance() {
    let deps = ledger(1, 1_000_000);
    let mut st = fresh();
    let before = st.snapshot();
    let err = confirm_delivery(deps.as_ref(), &mut st, &s("buyer"), 0).unwrap_err();
    assert!(matches!(err, ContractError::NothingDeposited {}));
    assert_eq!(st, before);
    assert!(matches!(check_confirm(&st, &s("buyer"), 0), Err(ContractError::NothingDeposited {})));
}

#[test]
fn roles_are_enforced() {
    let deps = ledger(1, 1_000_000);
    let mut st = paid(990);
    assert!(matches!(claim_deposits(&st, &s("buyer"), 5), Err(ContractError::Unauthorized {})));
    assert!(matches!(
        confirm_delivery(deps.as_ref(), &mut st, &s("arbiter"), 990),
        Err(ContractError::Unauthorized {})
    ));
    assert!(matches!(
        deposit(deps.as_ref(), &mut st, &s("arbiter"), &vec![uusd(1)]),
        Err(ContractError::Unauthorized {})
    ));
    assert_eq!(st.escrow_status, EscrowStatus::AwaitingDelivery);
}

#[test]
fn malformed_funds_are_refused() {
    let st = fresh();
    assert!(matches!(check_deposit(&st, &s("buyer"), &vec![]), Err(ContractError::NoFundsSent {})));
    assert!(matches!(
        check_deposit(&st, &s("buyer"), &vec![uusd(1), uusd(2)]),
        Err(ContractError::MultipleCoinsSent {})
    ));
    assert!(matches!(
        check_deposit(&st, &s("buyer"), &vec![Coin::new(1, s("uluna"))]),
        Err(ContractError::WrongDenomSent {})
    ));
    assert_eq!(check_deposit(&st, &s("buyer"), &vec![uusd(7)]).unwrap(), 7);
}

#[test]
fn principal_is_amount_less_tax() {
    let mut st = fresh();
    let out = record_deposit(&mut st, 1000, 10);
    assert_eq!(st.buyer_payment, uusd(990));
    assert_eq!(out, vec![Instruction::DepositStable { market: s("market"), coin: uusd(990) }]);
}

#[test]
fn tax_is_capped() {
    let deps = ledger(1, 3);
    let mut st = fresh();
    deposit(deps.as_ref(), &mut st, &s("buyer"), &vec![uusd(1000)]).unwrap();
    assert_eq!(st.buyer_payment, uusd(997));
}

#[test]
fn taxed_coin_is_net_of_withholding() {
    let deps = ledger(1, 1_000_000);
    let c = get_taxed_coin(deps.as_ref(), s("uusd"), &uusd(1000)).unwrap();
    assert_eq!(c, uusd(990));
    let c = get_taxed_coin(deps.as_ref(), s("uusd"), &uusd(50)).unwrap();
    assert_eq!(c, uusd(49));
}

#[test]
fn ledger_failure_leaves_record_unchanged() {
    let deps = unreachable_ledger();
    let mut st = fresh();
    let before = st.snapshot();
    let err = deposit(deps.as_ref(), &mut st, &s("buyer"), &vec![uusd(1000)]).unwrap_err();
    assert!(matches!(err, ContractError::Std(_)));
    assert_eq!(st, before);
}

#[test]
fn queries_do_not_change_the_record() {
    let st = paid(990);
    let before = st.snapshot();
    for _ in 0..3 {
        assert_eq!(query_state(&st).state, before);
        let v = query_payment_value(&st, 100, 1_200_000_000_000_000_000);
        let p = v.payment_value_res.unwrap();
        assert_eq!(p.aust_amount, 100);
        assert_eq!(p.ust_amount, Uint256::from(120u128));
    }
    assert_eq!(st, before);
}

#[test]
fn payment_value_is_absent_before_deposit() {
    let st = fresh();
    assert!(query_payment_value(&st, 0, RATE_SCALE).payment_value_res.is_none());
}

#[test]
fn shares_are_valued_at_the_rate_rounded_down() {
    assert_eq!(get_ust_deposited(200, 1_500_000_000_000_000_000), Uint256::from(300u128));
    assert_eq!(get_ust_deposited(3, 500_000_000_000_000_000), Uint256::from(1u128));
    assert_eq!(get_ust_deposited(0, RATE_SCALE), Uint256::from(0u128));
    let big = get_ust_deposited(u128::MAX, u128::MAX);
    assert!(big > Uint256::from(u128::MAX));
}

#[test]
fn net_of_tax_subtracts_the_withholding() {
    assert_eq!(net_of_tax(&uusd(1000), s("uusd"), 10), uusd(990));
    assert_eq!(net_of_tax(&uusd(5), s("uluna"), 5), Coin::new(0, s("uluna")));
}

#[test]
fn wrong_caller_is_unauthorized_even_when_delivered() {
    let deps = ledger(1, 1_000_000);
    let mut st = paid(990);
    settle(&mut st, 990, 0, 0);
    assert!(matches!(
        deposit(deps.as_ref(), &mut st, &s("seller"), &vec![uusd(1)]),
        Err(ContractError::Unauthorized {})
    ));
    assert!(matches!(
        confirm_delivery(deps.as_ref(), &mut st, &s("arbiter"), 990),
        Err(ContractError::Unauthorized {})
    ));
    assert!(matches!(claim_deposits(&st, &s("buyer"), 1), Err(ContractError::Unauthorized {})));
}
