use cosmwasm_std::testing::MockStorage;
use leverage_contract::chain::{Coin, Env, MessageInfo};
use leverage_contract::contract::{execute, instantiate, query};
use leverage_contract::msg::{ExecuteMsg, InstantiateMsg, QueryMsg, QueryResponse, QueryTokenData};
use leverage_contract::store::Store;

#[test]
fn cw_multi_instantiate() {
    // What the creator holds; the deposit below is taken from it.
    let init_funds = vec![Coin { denom: String::from("uosmo"), amount: 10000000000u128 }];
    let mut storage = MockStorage::new();
    let mut store = Store { inner: &mut storage };
    let env = Env { time: 1_571_797_419_879_305_533 };

    let msg = InstantiateMsg { token_contract_address: String::from("usdc_contract") };
    let creator = MessageInfo { sender: String::from("creator"), funds: vec![] };
    instantiate(&mut store, env, creator, msg).unwrap();

    let execute_osmo_deposit = ExecuteMsg::DepositNative { token_address: String::from("OSMO") };
    let with_funds = MessageInfo {
        sender: String::from("creator"),
        funds: vec![Coin { denom: String::from("uosmo"), amount: 100000000u128 }],
    };
    assert_eq!(with_funds.funds[0].denom, init_funds[0].denom);
    assert!(with_funds.funds[0].amount <= init_funds[0].amount);
    execute(&mut store, env, with_funds, execute_osmo_deposit).unwrap();

    let user_query_data = QueryTokenData {
        token_address: String::from("OSMO"),
        user_address: String::from("creator"),
    };
    let res_query_user_collateral_token_balance =
        query(&store, env, QueryMsg::UserCollateralTokenBalance(user_query_data.clone())).unwrap();
    match res_query_user_collateral_token_balance {
        QueryResponse::Balance(collateral) => {
            println!("collateral: {}", collateral);
            assert_eq!(collateral, 100000000u128);
        }
        QueryResponse::Orders(_) => panic!("a balance was asked for"),
    }
    let wrapped = query(&store, env, QueryMsg::UserWrappedTokenBalance(user_query_data)).unwrap();
    assert_eq!(wrapped, QueryResponse::Balance(1000000000u128));
}
