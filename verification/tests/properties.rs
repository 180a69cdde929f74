//! Validation errors, identifier assignment, balance accumulation and
//! settlement ordering on concrete values.

use orderbook_escrow::contract::{
    execute_close_order, execute_open_order, query_order, send_tokens, TransferInstruction,
};
use orderbook_escrow::error::ContractError;
use orderbook_escrow::msg::{InstantiateMsg, OpenOrderMsg, QueryMsg, ReceiveMsg};
use orderbook_escrow::state::{Balance, Coin, Cw20CoinVerified, GenericBalance, OrderStore};

fn coin(amount: u128, denom: &str) -> Coin {
    Coin { denom: denom.to_string(), amount }
}

fn cw20_requirement(contract_address: &str, amount: u128) -> GenericBalance {
    let mut tokens = GenericBalance::default();
    tokens.add_tokens(Balance::Cw20(Cw20CoinVerified {
        address: contract_address.to_string(),
        amount,
    }));
    tokens
}

fn cw20_balance(contract_address: &str, amount: u128) -> Balance {
    Balance::Cw20(Cw20CoinVerified { address: contract_address.to_string(), amount })
}

fn open_standard_order(store: &mut OrderStore) -> u64 {
    let msg = OpenOrderMsg { taker_token: cw20_requirement("token", 500), target_address: None };
    execute_open_order(store, Balance::Native(vec![coin(100, "native")]), &"maker".to_string(), msg)
        .unwrap()
}

#[test]
fn open_with_empty_deposit_fails_and_consumes_no_identifier() {
    let mut store = OrderStore::new();
    let msg = OpenOrderMsg { taker_token: cw20_requirement("token", 500), target_address: None };
    let err = execute_open_order(&mut store, Balance::Native(vec![]), &"maker".to_string(), msg)
        .unwrap_err();
    assert!(matches!(err, ContractError::EmptyBalance {}));

    // The failed open consumed no identifier: the next open still gets 1.
    assert_eq!(1, open_standard_order(&mut store));
}

#[test]
fn open_with_zero_amount_deposit_counts_as_empty() {
    let mut store = OrderStore::new();
    let msg = OpenOrderMsg { taker_token: cw20_requirement("token", 500), target_address: None };
    let err = execute_open_order(
        &mut store,
        Balance::Native(vec![coin(0, "native")]),
        &"maker".to_string(),
        msg,
    )
    .unwrap_err();
    assert!(matches!(err, ContractError::EmptyBalance {}));
}

#[test]
fn open_with_taker_naming_no_asset_kind_fails() {
    let mut store = OrderStore::new();
    let msg = OpenOrderMsg { taker_token: GenericBalance::default(), target_address: None };
    let err = execute_open_order(
        &mut store,
        Balance::Native(vec![coin(100, "native")]),
        &"maker".to_string(),
        msg,
    )
    .unwrap_err();
    assert!(matches!(err, ContractError::OrderInvalid(_)));
    assert_eq!(1, open_standard_order(&mut store));
}

#[test]
fn open_with_more_than_one_cw20_taker_kind_fails() {
    let mut store = OrderStore::new();
    let mut taker = cw20_requirement("token-a", 1);
    taker.add_tokens(cw20_balance("token-b", 2));
    let msg = OpenOrderMsg { taker_token: taker, target_address: None };
    let err = execute_open_order(
        &mut store,
        Balance::Native(vec![coin(100, "native")]),
        &"maker".to_string(),
        msg,
    )
    .unwrap_err();
    assert!(matches!(err, ContractError::OrderInvalid(_)));
}

#[test]
fn open_with_both_asset_kinds_in_taker_fails() {
    let mut store = OrderStore::new();
    let mut taker = cw20_requirement("token", 1);
    taker.add_tokens(Balance::Native(vec![coin(5, "native")]));
    let msg = OpenOrderMsg { taker_token: taker, target_address: None };
    let err = execute_open_order(
        &mut store,
        Balance::Native(vec![coin(100, "native")]),
        &"maker".to_string(),
        msg,
    )
    .unwrap_err();
    assert!(matches!(err, ContractError::OrderInvalid(_)));
}

#[test]
fn open_with_native_deposit_and_native_taker_fails() {
    let mut store = OrderStore::new();
    let mut taker = GenericBalance::default();
    taker.add_tokens(Balance::Native(vec![coin(5, "other")]));
    let msg = OpenOrderMsg { taker_token: taker, target_address: None };
    let err = execute_open_order(
        &mut store,
        Balance::Native(vec![coin(100, "native")]),
        &"maker".to_string(),
        msg,
    )
    .unwrap_err();
    assert!(matches!(err, ContractError::OrderInvalid(_)));
}

#[test]
fn close_with_unknown_identifier_fails() {
    let mut store = OrderStore::new();
    let id = open_standard_order(&mut store);
    assert_eq!(1, id);
    for missing in [0u64, 2, 7] {
        let err =
            execute_close_order(&mut store, cw20_balance("token", 500), &"taker".to_string(), missing)
                .unwrap_err();
        assert!(matches!(err, ContractError::OrderNotFound {}));
    }
}

#[test]
fn close_twice_fails_with_order_closed() {
    let mut store = OrderStore::new();
    let id = open_standard_order(&mut store);
    execute_close_order(&mut store, cw20_balance("token", 500), &"taker".to_string(), id).unwrap();
    let err = execute_close_order(&mut store, cw20_balance("token", 500), &"taker".to_string(), id)
        .unwrap_err();
    assert!(matches!(err, ContractError::OrderClosed {}));
}

#[test]
fn close_with_overpayment_or_underpayment_fails() {
    let mut store = OrderStore::new();
    let id = open_standard_order(&mut store);
    let err = execute_close_order(&mut store, cw20_balance("token", 501), &"taker".to_string(), id)
        .unwrap_err();
    assert!(matches!(err, ContractError::OrderUnmatched {}));
    let err = execute_close_order(&mut store, cw20_balance("token", 499), &"taker".to_string(), id)
        .unwrap_err();
    assert!(matches!(err, ContractError::OrderUnmatched {}));
    // The exact amount still closes the order.
    execute_close_order(&mut store, cw20_balance("token", 500), &"taker".to_string(), id).unwrap();
}

#[test]
fn identifiers_increase_across_intervening_closes() {
    let mut store = OrderStore::new();
    assert_eq!(1, open_standard_order(&mut store));
    execute_close_order(&mut store, cw20_balance("token", 500), &"taker".to_string(), 1).unwrap();
    assert_eq!(2, open_standard_order(&mut store));
    assert_eq!(3, open_standard_order(&mut store));
}

#[test]
fn closed_order_keeps_balances_from_open_time() {
    let mut store = OrderStore::new();
    let id = open_standard_order(&mut store);
    let before = query_order(&store, id).unwrap();
    execute_close_order(&mut store, cw20_balance("token", 500), &"taker".to_string(), id).unwrap();
    let after = query_order(&store, id).unwrap();
    assert_eq!(false, after.is_open);
    assert_eq!(before.maker_address, after.maker_address);
    assert_eq!(before.maker_token, after.maker_token);
    assert_eq!(before.taker_token, after.taker_token);
    assert_eq!(before.target_address, after.target_address);
}

#[test]
fn add_tokens_merges_amounts_by_key() {
    let mut balance = GenericBalance::default();
    balance.add_tokens(Balance::Native(vec![coin(100, "gold"), coin(25, "silver")]));
    balance.add_tokens(Balance::Native(vec![coin(50, "gold")]));
    assert_eq!(vec![coin(150, "gold"), coin(25, "silver")], balance.native);

    balance.add_tokens(cw20_balance("token", 7));
    balance.add_tokens(cw20_balance("token", 3));
    assert_eq!(
        vec![Cw20CoinVerified { address: "token".to_string(), amount: 10 }],
        balance.cw20
    );
}

#[test]
fn add_tokens_drops_zero_amounts() {
    let mut balance = GenericBalance::default();
    balance.add_tokens(Balance::Native(vec![coin(0, "gold"), coin(25, "silver"), coin(0, "lead")]));
    assert_eq!(vec![coin(25, "silver")], balance.native);
    assert!(!balance.is_empty());

    let mut zeros = GenericBalance::default();
    zeros.add_tokens(cw20_balance("token", 0));
    assert!(zeros.is_empty());
}

#[test]
fn matching_is_order_independent_set_equality() {
    let mut store = OrderStore::new();
    // The maker asks for two native denominations, in one order.
    let mut taker = GenericBalance::default();
    taker.add_tokens(Balance::Native(vec![coin(10, "gold"), coin(20, "silver")]));
    let msg = OpenOrderMsg { taker_token: taker, target_address: None };
    let id = execute_open_order(&mut store, cw20_balance("token", 5), &"maker".to_string(), msg)
        .unwrap();
    // The taker deposits the same denominations in the other order.
    let transfers = execute_close_order(
        &mut store,
        Balance::Native(vec![coin(20, "silver"), coin(10, "gold")]),
        &"taker".to_string(),
        id,
    )
    .unwrap();
    assert_eq!(3, transfers.len());
}

#[test]
fn send_tokens_orders_native_before_cw20_deterministically() {
    let mut balance = GenericBalance::default();
    balance.add_tokens(Balance::Native(vec![coin(1, "gold"), coin(2, "silver")]));
    balance.add_tokens(cw20_balance("token-a", 3));
    balance.add_tokens(cw20_balance("token-b", 4));
    let to = "alice".to_string();
    let expected = vec![
        TransferInstruction::Native { to_address: to.clone(), denom: "gold".to_string(), amount: 1 },
        TransferInstruction::Native {
            to_address: to.clone(),
            denom: "silver".to_string(),
            amount: 2,
        },
        TransferInstruction::Cw20 {
            contract_addr: "token-a".to_string(),
            recipient: to.clone(),
            amount: 3,
        },
        TransferInstruction::Cw20 {
            contract_addr: "token-b".to_string(),
            recipient: to.clone(),
            amount: 4,
        },
    ];
    assert_eq!(expected, send_tokens(&to, &balance));
    // The same balance always yields the same instruction sequence.
    assert_eq!(expected, send_tokens(&to, &balance));
}

#[test]
fn scenario_swap_of_two_native_denominations_settles_both_sides() {
    let mut store = OrderStore::new();
    let mut taker = GenericBalance::default();
    taker.add_tokens(Balance::Native(vec![coin(10, "gold")]));
    let msg = OpenOrderMsg { taker_token: taker, target_address: Some("bob".to_string()) };
    let id = execute_open_order(&mut store, cw20_balance("token", 5), &"alice".to_string(), msg)
        .unwrap();
    let transfers = execute_close_order(
        &mut store,
        Balance::Native(vec![coin(10, "gold")]),
        &"bob".to_string(),
        id,
    )
    .unwrap();
    assert_eq!(
        vec![
            TransferInstruction::Native {
                to_address: "alice".to_string(),
                denom: "gold".to_string(),
                amount: 10,
            },
            TransferInstruction::Cw20 {
                contract_addr: "token".to_string(),
                recipient: "bob".to_string(),
                amount: 5,
            },
        ],
        transfers
    );
}

#[test]
fn receive_instruction_carries_the_open_request() {
    assert_eq!(InstantiateMsg {}, InstantiateMsg {});
    let open = OpenOrderMsg { taker_token: cw20_requirement("token", 500), target_address: None };
    let received = ReceiveMsg::OpenOrder(open.clone());
    match received {
        ReceiveMsg::OpenOrder(inner) => assert_eq!(open, inner),
        ReceiveMsg::CloseOrder { .. } => panic!("wrong instruction"),
    }
    let query = QueryMsg::Order { id: 3 };
    assert!(matches!(query, QueryMsg::Order { id: 3 }));
}
