//! The read-only side of the ledger: four balances and the order history.

use crate::balance::{balance_of, fetch_or, held, unreadable, Balances};
use crate::chain::Env;
use crate::error::ContractError;
use crate::exchange::{history, OrderBooks};
use crate::msg::QueryTokenData;
use crate::state::{
    all_decodable, is_balance_ledger, orders_from_rows, records, OrderState, ORDER_STATE,
    TOKEN_BALANCE, USER_VTOKEN_BALANCE, WRAPPED_TOKEN_BALANCE, WRAPPED_TOKEN_BORROW_BALANCE,
};
use crate::store::{balances, is_storable, load_orders, order_books, Store};
use vstd::prelude::*;

verus! {

/// The answer to a balance query on the balances `m`: what the row holds,
/// zero where there is no row, and `failure` where the row cannot be read.
pub open spec fn balance_answer(
    m: Balances,
    ledger: &str,
    asset: Seq<char>,
    user: Seq<char>,
    failure: ContractError,
) -> Result<u128, ContractError> {
    if unreadable(m, ledger, asset, user) {
        Err(failure)
    } else {
        Ok(held(m, ledger, asset, user))
    }
}

/// Reads one balance.
fn balance(store: &Store<'_>, ledger: &'static str, query_token_data: QueryTokenData, failure: ContractError) -> (r:
    Result<u128, ContractError>)
    requires
        is_balance_ledger(ledger@),
        is_storable(query_token_data.token_address@),
    ensures
        r == balance_answer(
            balances(store),
            ledger,
            query_token_data.token_address@,
            query_token_data.user_address@,
            failure,
        ),
{
    let row = fetch_or(
        store,
        ledger,
        query_token_data.token_address.as_str(),
        query_token_data.user_address.as_str(),
        failure,
    )?;
    Ok(balance_of(row))
}

/// The Collateral of a user in an asset.
pub fn fetch_user_collateral_token_balance(store: &Store<'_>, _env: Env, query_token_data: QueryTokenData) -> (r:
    Result<u128, ContractError>)
    requires
        is_storable(query_token_data.token_address@),
    ensures
        r == balance_answer(
            balances(store),
            TOKEN_BALANCE,
            query_token_data.token_address@,
            query_token_data.user_address@,
            ContractError::UserTokenBalanceQueryFailed {},
        ),
{
    balance(store, TOKEN_BALANCE, query_token_data, ContractError::UserTokenBalanceQueryFailed {})
}

/// The Wrapped balance of a user in an asset.
pub fn fetch_user_wrapped_token_balance(store: &Store<'_>, _env: Env, query_token_data: QueryTokenData) -> (r:
    Result<u128, ContractError>)
    requires
        is_storable(query_token_data.token_address@),
    ensures
        r == balance_answer(
            balances(store),
            WRAPPED_TOKEN_BALANCE,
            query_token_data.token_address@,
            query_token_data.user_address@,
            ContractError::WrappedTokenQueryFailed {},
        ),
{
    balance(store, WRAPPED_TOKEN_BALANCE, query_token_data, ContractError::WrappedTokenQueryFailed {})
}

/// The Borrow of a user in an asset.
pub fn fetch_user_borrow_token_balance(store: &Store<'_>, _env: Env, query_token_data: QueryTokenData) -> (r:
    Result<u128, ContractError>)
    requires
        is_storable(query_token_data.token_address@),
    ensures
        r == balance_answer(
            balances(store),
            WRAPPED_TOKEN_BORROW_BALANCE,
            query_token_data.token_address@,
            query_token_data.user_address@,
            ContractError::UserBorrowTokenBalanceQueryFailed {},
        ),
{
    balance(
        store,
        WRAPPED_TOKEN_BORROW_BALANCE,
        query_token_data,
        ContractError::UserBorrowTokenBalanceQueryFailed {},
    )
}

/// The Position of a user in an asset.
pub fn fetch_user_v_token_balance(store: &Store<'_>, _env: Env, query_token_data: QueryTokenData) -> (r: Result<
    u128,
    ContractError,
>)
    requires
        is_storable(query_token_data.token_address@),
    ensures
        r == balance_answer(
            balances(store),
            USER_VTOKEN_BALANCE,
            query_token_data.token_address@,
            query_token_data.user_address@,
            ContractError::UserVTokenBalanceQueryFailed {},
        ),
{
    balance(
        store,
        USER_VTOKEN_BALANCE,
        query_token_data,
        ContractError::UserVTokenBalanceQueryFailed {},
    )
}

/// The history of `user` can be read, and every row of it names a status.
pub open spec fn history_readable(books: OrderBooks, user: Seq<char>) -> bool {
    !books.contains_pair(user, None) && all_decodable(history(books, user))
}

/// The executed orders of a user, oldest first; none where the user has no
/// history.
pub fn fetch_user_orders(store: &Store<'_>, _env: Env, user_address: String) -> (r: Result<
    Vec<OrderState>,
    ContractError,
>)
    ensures
        match r {
            Ok(orders) => history_readable(order_books(store), user_address@) && records(orders@)
                == history(order_books(store), user_address@),
            Err(e) => !history_readable(order_books(store), user_address@) && e
                == (ContractError::UserOrderQueryFailed {}),
        },
{
    match load_orders(store, ORDER_STATE, user_address.as_str()) {
        Ok(Some(rows)) => match orders_from_rows(&rows) {
            Some(orders) => {
                assert(all_decodable(rows.deep_view())) by {
                    assert forall|i: int| 0 <= i < rows.deep_view().len() implies (
                    #[trigger] rows.deep_view()[i]).6 <= 2 by {
                        assert(rows.deep_view()[i] == records(orders@)[i]);
                    }
                }
                Ok(orders)
            },
            None => Err(ContractError::UserOrderQueryFailed {}),
        },
        Ok(None) => {
            let orders: Vec<OrderState> = Vec::new();
            assert(records(orders@) =~= seq![]);
            Ok(orders)
        },
        Err(_) => Err(ContractError::UserOrderQueryFailed {}),
    }
}

/// Balances are never negative: whatever the rows, a balance query that is
/// answered is answered with a quantity of zero or more.
pub proof fn lemma_balances_not_negative(
    m: Balances,
    ledger: &str,
    asset: Seq<char>,
    user: Seq<char>,
    failure: ContractError,
)
    ensures
        balance_answer(m, ledger, asset, user, failure) matches Ok(value) ==> value >= 0,
{
}

/// A query reads and does not write: its answer is decided by the row it
/// asks for, so as long as that row stays as it is, asking again gives the
/// same answer.
pub proof fn lemma_balance_answer_repeats(
    m: Balances,
    later: Balances,
    ledger: &str,
    asset: Seq<char>,
    user: Seq<char>,
    failure: ContractError,
)
    requires
        m.dom().contains((ledger@, asset, user)) == later.dom().contains((ledger@, asset, user)),
        m.dom().contains((ledger@, asset, user)) ==> m[(ledger@, asset, user)] == later[(
            ledger@,
            asset,
            user,
        )],
    ensures
        balance_answer(m, ledger, asset, user, failure) == balance_answer(
            later,
            ledger,
            asset,
            user,
            failure,
        ),
{
}

} // verus!
