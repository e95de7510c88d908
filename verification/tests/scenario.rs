use cosmwasm_std::testing::MockStorage;
use leverage_contract::borrow::borrow;
use leverage_contract::burn::burn;
use leverage_contract::chain::{Coin, Env, MessageInfo, Response, Transfer};
use leverage_contract::deposit::native_token;
use leverage_contract::exchange::execute_order;
use leverage_contract::msg::{OrderExecute, QueryTokenData, TokenData, WithdrawData};
use leverage_contract::query::{
    fetch_user_borrow_token_balance, fetch_user_collateral_token_balance, fetch_user_orders,
    fetch_user_v_token_balance, fetch_user_wrapped_token_balance,
};
use leverage_contract::repay::repay;
use leverage_contract::state::Status;
use leverage_contract::store::Store;
use leverage_contract::withdraw::withdraw;
use leverage_contract::ContractError;

const ENV: Env = Env { time: 1_700_000_000_000_000_000 };

fn caller(name: &str) -> MessageInfo {
    MessageInfo { sender: name.to_string(), funds: vec![] }
}

fn paying(name: &str, amount: u128) -> MessageInfo {
    MessageInfo { sender: name.to_string(), funds: vec![Coin { denom: "uosmo".to_string(), amount }] }
}

fn token(asset: &str, amount: u128) -> TokenData {
    TokenData { token_address: asset.to_string(), token_amount: amount }
}

fn row(asset: &str, user: &str) -> QueryTokenData {
    QueryTokenData { token_address: asset.to_string(), user_address: user.to_string() }
}

/// Collateral, Wrapped, Borrow and Position of `user` in `asset`.
fn balances(store: &Store, asset: &str, user: &str) -> (u128, u128, u128, u128) {
    (
        fetch_user_collateral_token_balance(store, ENV, row(asset, user)).unwrap(),
        fetch_user_wrapped_token_balance(store, ENV, row(asset, user)).unwrap(),
        fetch_user_borrow_token_balance(store, ENV, row(asset, user)).unwrap(),
        fetch_user_v_token_balance(store, ENV, row(asset, user)).unwrap(),
    )
}

#[test]
fn deposit_borrow_repay_redeem_withdraw() {
    let mut storage = MockStorage::new();
    let mut store = Store { inner: &mut storage };

    native_token(&mut store, ENV, paying("u", 100), "X".to_string()).unwrap();
    assert_eq!(balances(&store, "X", "u"), (100, 1000, 0, 0));

    borrow(&mut store, ENV, caller("u"), token("X", 500)).unwrap();
    assert_eq!(balances(&store, "X", "u"), (100, 500, 500, 500));

    repay(&mut store, ENV, caller("u"), token("X", 200)).unwrap();
    assert_eq!(balances(&store, "X", "u"), (100, 700, 300, 300));

    let refused = burn(&mut store, ENV, caller("u"), token("X", 300));
    assert_eq!(refused, Err(ContractError::PayBorrowAmount {}));
    assert_eq!(balances(&store, "X", "u"), (100, 700, 300, 300));

    repay(&mut store, ENV, caller("u"), token("X", 300)).unwrap();
    assert_eq!(balances(&store, "X", "u"), (100, 1000, 0, 0));

    // Nothing is left of the Position, so nothing more can be redeemed.
    let nothing_left = burn(&mut store, ENV, caller("u"), token("X", 1000));
    assert_eq!(nothing_left, Err(ContractError::InsufficientBalance {}));

    let out = withdraw(
        &mut store,
        ENV,
        caller("u"),
        WithdrawData {
            token_address: "X".to_string(),
            token_amount: 100,
            withdraw_type: "native".to_string(),
            native: Some("uosmo".to_string()),
            usdc: None,
        },
    )
    .unwrap();
    assert_eq!(
        out.messages,
        vec![Transfer::Native { to_address: "u".to_string(), denom: "uosmo".to_string(), amount: 100 }]
    );
    assert_eq!(balances(&store, "X", "u"), (0, 0, 0, 0));
}

#[test]
fn redeem_turns_position_into_collateral() {
    let mut storage = MockStorage::new();
    let mut store = Store { inner: &mut storage };

    // Position that is not owed: 1000 bought with an order, on top of a deposit of 100.
    native_token(&mut store, ENV, paying("u", 100), "X".to_string()).unwrap();
    native_token(&mut store, ENV, paying("u", 100), "Y".to_string()).unwrap();
    borrow(&mut store, ENV, caller("u"), token("Y", 1000)).unwrap();
    execute_order(
        &mut store,
        ENV,
        caller("anyone"),
        OrderExecute {
            order_id: "o".to_string(),
            user_address: "u".to_string(),
            token_in: "Y".to_string(),
            token_out: "X".to_string(),
            amount_in: 1000,
            amount_out: 1000,
        },
    )
    .unwrap();
    assert_eq!(balances(&store, "X", "u"), (100, 1000, 0, 1000));

    let response = burn(&mut store, ENV, caller("u"), token("X", 1000)).unwrap();
    assert_eq!(response, Response { attributes: vec![], messages: vec![] });
    assert_eq!(balances(&store, "X", "u"), (200, 2000, 0, 0));

    let out = withdraw(
        &mut store,
        ENV,
        caller("u"),
        WithdrawData {
            token_address: "X".to_string(),
            token_amount: 200,
            withdraw_type: "fungible".to_string(),
            native: None,
            usdc: Some("usdc_contract".to_string()),
        },
    )
    .unwrap();
    assert_eq!(
        out.messages,
        vec![Transfer::Fungible {
            contract_addr: "usdc_contract".to_string(),
            msg: br#"{"transfer":{"recipient":"u","amount":"200"}}"#.to_vec(),
        }]
    );
    assert_eq!(balances(&store, "X", "u"), (0, 0, 0, 0));
}

#[test]
fn exchange_moves_position_and_records_the_order() {
    let mut storage = MockStorage::new();
    let mut store = Store { inner: &mut storage };

    native_token(&mut store, ENV, paying("u", 50), "A".to_string()).unwrap();
    borrow(&mut store, ENV, caller("u"), token("A", 500)).unwrap();
    assert_eq!(fetch_user_v_token_balance(&store, ENV, row("A", "u")), Ok(500));

    let response = execute_order(
        &mut store,
        ENV,
        caller("u"),
        OrderExecute {
            order_id: "order-1".to_string(),
            user_address: "u".to_string(),
            token_in: "A".to_string(),
            token_out: "B".to_string(),
            amount_in: 200,
            amount_out: 20,
        },
    )
    .unwrap();
    assert_eq!(response.attributes.len(), 1);
    assert_eq!(response.attributes[0].key, "method");
    assert_eq!(response.attributes[0].value, "execute_order");
    assert!(response.messages.is_empty());

    assert_eq!(fetch_user_v_token_balance(&store, ENV, row("A", "u")), Ok(300));
    assert_eq!(fetch_user_v_token_balance(&store, ENV, row("B", "u")), Ok(20));

    let orders = fetch_user_orders(&store, ENV, "u".to_string()).unwrap();
    assert_eq!(orders.len(), 1);
    assert_eq!(orders[0].order_id, "order-1");
    assert_eq!(orders[0].sell_token, "A");
    assert_eq!(orders[0].buy_token, "B");
    assert_eq!(orders[0].sell_token_amount, 200);
    assert_eq!(orders[0].buy_token_amount, 20);
    assert_eq!(orders[0].time, ENV.time);
    assert_eq!(orders[0].status, Status::Fullfiled);
}
