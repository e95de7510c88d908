//! The entry points: setting the ledger up, and handing each message to
//! the operation that serves it.

use crate::borrow::{borrow, borrow_post};
use crate::burn::{burn, burn_post};
use crate::chain::{Env, MessageInfo, Response, ResponseView};
use crate::deposit::{fungible_token, fungible_token_post, native_token, native_token_post};
use crate::error::ContractError;
use crate::exchange::{execute_order, execute_order_post, history};
use crate::execute::{list_token_on_leverage, list_token_on_leverage_post};
use crate::msg::{ExecuteMsg, InstantiateMsg, QueryMsg, QueryResponse};
use crate::query::{
    balance_answer, fetch_user_borrow_token_balance, fetch_user_collateral_token_balance,
    fetch_user_orders, fetch_user_v_token_balance, fetch_user_wrapped_token_balance,
    history_readable,
};
use crate::repay::{repay, repay_post};
use crate::state::{
    records, LEVERAGE_CONTRACT_OWNER, LISTED_TOKEN, TOKEN_BALANCE, USER_VTOKEN_BALANCE,
    WRAPPED_TOKEN_BALANCE, WRAPPED_TOKEN_BORROW_BALANCE,
};
use crate::store::{
    balances, contract_owner, is_storable, listed_tokens, order_books, same_contents,
    save_listed_tokens, save_owner, set_contract_version, texts, Store,
};
use crate::withdraw::{withdraw, withdraw_post};
use vstd::prelude::*;

verus! {

/// `cosmwasm_std::Reply`, carried through as an opaque value.
#[verifier::external_type_specification]
#[verifier::external_body]
pub struct ExReply(cosmwasm_std::Reply);

/// The name under which the contract records its version.
pub const CONTRACT_NAME: &'static str = "crates.io:leverage-contract";

/// The version that the contract records.
pub const CONTRACT_VERSION: &'static str = "0.1.0";

/// What `instantiate` does to the store and returns: it always goes
/// through; the list of accepted assets becomes the one asset of the
/// message, and the sender becomes the owner.
pub open spec fn instantiate_post(
    before: &Store<'_>,
    after: &Store<'_>,
    info: MessageInfo,
    msg: InstantiateMsg,
    r: Result<Response, ContractError>,
) -> bool {
    let listed = Some(seq![msg.token_contract_address@]);
    &&& balances(after) == balances(before)
    &&& order_books(after) == order_books(before)
    &&& r matches Ok(response)
    &&& response@ == (ResponseView {
        attributes: seq![("method"@, "instantiate"@), ("owner"@, info.sender@)],
        messages: seq![],
    })
    &&& listed_tokens(after) == listed
    &&& contract_owner(after) == Some(info.sender@)
}

/// Sets the ledger up: records the contract's name and version, accepts
/// the asset of the message, and makes the sender the owner.
pub fn instantiate(store: &mut Store<'_>, _env: Env, info: MessageInfo, msg: InstantiateMsg) -> (r: Result<
    Response,
    ContractError,
>)
    ensures
        instantiate_post(old(store), final(store), info, msg, r),
{
    match set_contract_version(store, CONTRACT_NAME, CONTRACT_VERSION) {
        Ok(()) => {},
        Err(e) => {
            return Err(ContractError::Std(e));
        },
    }
    let mut token_list: Vec<String> = Vec::new();
    token_list.push(msg.token_contract_address.clone());
    assert(texts(token_list@) =~= seq![msg.token_contract_address@]);
    match save_listed_tokens(store, LISTED_TOKEN, &token_list) {
        Ok(()) => {},
        Err(e) => {
            return Err(ContractError::Std(e));
        },
    }
    match save_owner(store, LEVERAGE_CONTRACT_OWNER, info.sender.as_str()) {
        Ok(()) => {},
        Err(e) => {
            return Err(ContractError::Std(e));
        },
    }
    let response = Response::new().add_attribute("method", "instantiate").add_attribute(
        "owner",
        info.sender.as_str(),
    );
    assert(response@.attributes =~= seq![("method"@, "instantiate"@), ("owner"@, info.sender@)]);
    Ok(response)
}

/// Every asset that `msg` names can be part of a balance key.
pub open spec fn well_formed(msg: ExecuteMsg) -> bool {
    match msg {
        ExecuteMsg::ListTokenOnLeverage { .. } => true,
        ExecuteMsg::Receive(_) => true,
        ExecuteMsg::DepositNative { token_address } => is_storable(token_address@),
        ExecuteMsg::Borrow(token_data) => is_storable(token_data.token_address@),
        ExecuteMsg::ExecuteOrder(order) => is_storable(order.token_in@) && is_storable(
            order.token_out@,
        ),
        ExecuteMsg::Repay(token_data) => is_storable(token_data.token_address@),
        ExecuteMsg::Burn(token_data) => is_storable(token_data.token_address@),
        ExecuteMsg::WithdrawToken(withdraw_data) => is_storable(withdraw_data.token_address@),
    }
}

/// What `execute` does to the store and returns: what the operation does
/// that serves `msg`.
pub open spec fn execute_post(
    before: &Store<'_>,
    after: &Store<'_>,
    env: Env,
    info: MessageInfo,
    msg: ExecuteMsg,
    r: Result<Response, ContractError>,
) -> bool {
    match msg {
        ExecuteMsg::ListTokenOnLeverage { token_address } => list_token_on_leverage_post(
            before,
            after,
            info,
            token_address,
            r,
        ),
        ExecuteMsg::Receive(receive_msg) => fungible_token_post(before, after, info, receive_msg, r),
        ExecuteMsg::DepositNative { token_address } => native_token_post(
            before,
            after,
            info,
            token_address,
            r,
        ),
        ExecuteMsg::Borrow(token_data) => borrow_post(before, after, info, token_data, r),
        ExecuteMsg::ExecuteOrder(order) => execute_order_post(before, after, env, order, r),
        ExecuteMsg::Repay(token_data) => repay_post(before, after, info, token_data, r),
        ExecuteMsg::Burn(token_data) => burn_post(before, after, info, token_data, r),
        ExecuteMsg::WithdrawToken(withdraw_data) => withdraw_post(
            before,
            after,
            info,
            withdraw_data,
            r,
        ),
    }
}

/// Carries out the operation that `msg` names, for the sender of the call.
pub fn execute(store: &mut Store<'_>, env: Env, info: MessageInfo, msg: ExecuteMsg) -> (r: Result<
    Response,
    ContractError,
>)
    requires
        well_formed(msg),
    ensures
        execute_post(old(store), final(store), env, info, msg, r),
{
    match msg {
        ExecuteMsg::ListTokenOnLeverage { token_address } => list_token_on_leverage(
            store,
            env,
            info,
            token_address,
        ),
        ExecuteMsg::Receive(receive_msg) => fungible_token(store, env, info, receive_msg),
        ExecuteMsg::DepositNative { token_address } => native_token(store, env, info, token_address),
        ExecuteMsg::Borrow(token_data) => borrow(store, env, info, token_data),
        ExecuteMsg::Repay(token_data) => repay(store, env, info, token_data),
        ExecuteMsg::Burn(token_data) => burn(store, env, info, token_data),
        ExecuteMsg::ExecuteOrder(order) => execute_order(store, env, info, order),
        ExecuteMsg::WithdrawToken(withdraw_data) => withdraw(store, env, info, withdraw_data),
    }
}

/// Every asset that `msg` names can be part of a balance key.
pub open spec fn answerable(msg: QueryMsg) -> bool {
    match msg {
        QueryMsg::UserCollateralTokenBalance(data) => is_storable(data.token_address@),
        QueryMsg::UserWrappedTokenBalance(data) => is_storable(data.token_address@),
        QueryMsg::UserBorrowTokenBalance(data) => is_storable(data.token_address@),
        QueryMsg::UserVTokenBalance(data) => is_storable(data.token_address@),
        QueryMsg::UserOrders { .. } => true,
    }
}

/// The answer `r` is the balance that `expected` gives, or its failure.
pub open spec fn answers_balance(r: Result<QueryResponse, ContractError>, expected: Result<u128, ContractError>) -> bool {
    match expected {
        Ok(value) => r == Ok::<QueryResponse, ContractError>(QueryResponse::Balance(value)),
        Err(failure) => r == Err::<QueryResponse, ContractError>(failure),
    }
}

/// What `query` returns on the store `store`.
pub open spec fn query_post(store: &Store<'_>, msg: QueryMsg, r: Result<QueryResponse, ContractError>) -> bool {
    let m = balances(store);
    match msg {
        QueryMsg::UserCollateralTokenBalance(data) => answers_balance(
            r,
            balance_answer(
                m,
                TOKEN_BALANCE,
                data.token_address@,
                data.user_address@,
                ContractError::UserTokenBalanceQueryFailed {},
            ),
        ),
        QueryMsg::UserWrappedTokenBalance(data) => answers_balance(
            r,
            balance_answer(
                m,
                WRAPPED_TOKEN_BALANCE,
                data.token_address@,
                data.user_address@,
                ContractError::WrappedTokenQueryFailed {},
            ),
        ),
        QueryMsg::UserBorrowTokenBalance(data) => answers_balance(
            r,
            balance_answer(
                m,
                WRAPPED_TOKEN_BORROW_BALANCE,
                data.token_address@,
                data.user_address@,
                ContractError::UserBorrowTokenBalanceQueryFailed {},
            ),
        ),
        QueryMsg::UserVTokenBalance(data) => answers_balance(
            r,
            balance_answer(
                m,
                USER_VTOKEN_BALANCE,
                data.token_address@,
                data.user_address@,
                ContractError::UserVTokenBalanceQueryFailed {},
            ),
        ),
        QueryMsg::UserOrders { user_address } => match r {
            Ok(QueryResponse::Orders(orders)) => history_readable(order_books(store), user_address@)
                && records(orders@) == history(order_books(store), user_address@),
            Ok(QueryResponse::Balance(_)) => false,
            Err(e) => !history_readable(order_books(store), user_address@) && e
                == (ContractError::UserOrderQueryFailed {}),
        },
    }
}

/// Answers the question that `msg` asks.
pub fn query(store: &Store<'_>, env: Env, msg: QueryMsg) -> (r: Result<QueryResponse, ContractError>)
    requires
        answerable(msg),
    ensures
        query_post(store, msg, r),
{
    match msg {
        QueryMsg::UserCollateralTokenBalance(query_token_data) => {
            match fetch_user_collateral_token_balance(store, env, query_token_data) {
                Ok(value) => Ok(QueryResponse::Balance(value)),
                Err(e) => Err(e),
            }
        },
        QueryMsg::UserWrappedTokenBalance(query_token_data) => {
            match fetch_user_wrapped_token_balance(store, env, query_token_data) {
                Ok(value) => Ok(QueryResponse::Balance(value)),
                Err(e) => Err(e),
            }
        },
        QueryMsg::UserBorrowTokenBalance(query_token_data) => {
            match fetch_user_borrow_token_balance(store, env, query_token_data) {
                Ok(value) => Ok(QueryResponse::Balance(value)),
                Err(e) => Err(e),
            }
        },
        QueryMsg::UserVTokenBalance(query_token_data) => {
            match fetch_user_v_token_balance(store, env, query_token_data) {
                Ok(value) => Ok(QueryResponse::Balance(value)),
                Err(e) => Err(e),
            }
        },
        QueryMsg::UserOrders { user_address } => {
            match fetch_user_orders(store, env, user_address) {
                Ok(orders) => Ok(QueryResponse::Orders(orders)),
                Err(e) => Err(e),
            }
        },
    }
}

/// Answers a reply of the chain: there is nothing to do, and nothing
/// changes.
pub fn reply(store: &mut Store<'_>, _env: Env, _msg: cosmwasm_std::Reply) -> (r: Result<Response, ContractError>)
    ensures
        r matches Ok(response) && response@ == (ResponseView { attributes: seq![], messages: seq![] }),
        same_contents(final(store), old(store)),
{
    Ok(Response::new())
}

} // verus!
