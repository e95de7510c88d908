//! Repay: Position is given back against the Borrow and becomes Wrapped
//! capacity again.

use crate::balance::{
    balance_of, borrowed, credit, credited, debit, fetch, fetch_or, held, position, put, stored,
    unreadable, with_row, wrapped, Balances,
};
use crate::chain::{Env, MessageInfo, Response, ResponseView};
use crate::error::{plain, refused, ContractError, ErrorView};
use crate::msg::TokenData;
use crate::state::{
    lemma_ledgers_distinct, USER_VTOKEN_BALANCE, WRAPPED_TOKEN_BALANCE,
    WRAPPED_TOKEN_BORROW_BALANCE,
};
use crate::store::{balances, contract_owner, is_storable, listed_tokens, order_books, Store};
use vstd::prelude::*;

verus! {

/// What a repayment of `amount` of `asset` by `user` comes to on the
/// balances `m`: the new Position, Borrow and Wrapped rows, or the reason
/// for which it is refused. The reasons are tried in the order written.
///
/// A repayment never creates the Wrapped row: where there is none, it is
/// refused.
pub open spec fn repay_verdict(m: Balances, asset: Seq<char>, user: Seq<char>, amount: u128) -> Result<
    (u128, u128, u128),
    ErrorView,
> {
    let position = stored(m, USER_VTOKEN_BALANCE, asset, user);
    let borrowed = stored(m, WRAPPED_TOKEN_BORROW_BALANCE, asset, user);
    let wrapped = stored(m, WRAPPED_TOKEN_BALANCE, asset, user);
    if unreadable(m, USER_VTOKEN_BALANCE, asset, user) {
        Err(plain(ContractError::UserVTokenBalanceLoadError {}))
    } else if held(m, USER_VTOKEN_BALANCE, asset, user) < amount {
        Err(plain(ContractError::InsufficientBalance {}))
    } else if unreadable(m, WRAPPED_TOKEN_BORROW_BALANCE, asset, user) {
        Err(plain(ContractError::BorrowBalanceLoadError {}))
    } else if held(m, WRAPPED_TOKEN_BORROW_BALANCE, asset, user) < amount {
        Err(plain(ContractError::RepayOverflow {}))
    } else if position is None || borrowed is None {
        Err(plain(ContractError::UpdateWrapTokenBorrowErr {}))
    } else if unreadable(m, WRAPPED_TOKEN_BALANCE, asset, user) {
        Err(ErrorView::Std)
    } else if wrapped is None {
        Err(plain(ContractError::UpdateWrapTokenErr {}))
    } else if credited(wrapped, amount) is None {
        Err(plain(ContractError::Overflow {}))
    } else {
        Ok(
            (
                (position->0 - amount) as u128,
                (borrowed->0 - amount) as u128,
                credited(wrapped, amount)->0,
            ),
        )
    }
}

/// What `repay` does to the store and returns.
///
/// A refusal changes nothing. A repayment that is not refused goes
/// through: it writes the Position, the Borrow and the Wrapped row.
pub open spec fn repay_post(
    before: &Store<'_>,
    after: &Store<'_>,
    info: MessageInfo,
    token_data: TokenData,
    r: Result<Response, ContractError>,
) -> bool {
    let m = balances(before);
    let asset = token_data.token_address@;
    let user = info.sender@;
    &&& order_books(after) == order_books(before)
    &&& listed_tokens(after) == listed_tokens(before)
    &&& contract_owner(after) == contract_owner(before)
    &&& match repay_verdict(m, asset, user, token_data.token_amount) {
        Err(why) => refused(r, why) && balances(after) == m,
        Ok(rows) => {
            &&& r matches Ok(response)
            &&& response@ == (ResponseView {
                attributes: seq![("method"@, "repay"@)],
                messages: seq![],
            })
            &&& balances(after) == repaid_books(m, asset, user, rows)
        },
    }
}

/// Pays `token_data.token_amount` of the sender's debt on the asset back:
/// the amount leaves their Position and their Borrow and returns to their
/// Wrapped balance.
pub fn repay(store: &mut Store<'_>, _env: Env, info: MessageInfo, token_data: TokenData) -> (r: Result<
    Response,
    ContractError,
>)
    requires
        is_storable(token_data.token_address@),
    ensures
        repay_post(old(store), final(store), info, token_data, r),
{
    let asset = token_data.token_address.as_str();
    let user = info.sender.as_str();
    let amount = token_data.token_amount;

    let position = fetch_or(
        store,
        USER_VTOKEN_BALANCE,
        asset,
        user,
        ContractError::UserVTokenBalanceLoadError {},
    )?;
    if balance_of(position) < amount {
        return Err(ContractError::InsufficientBalance {});
    }
    let borrowed = fetch_or(
        store,
        WRAPPED_TOKEN_BORROW_BALANCE,
        asset,
        user,
        ContractError::BorrowBalanceLoadError {},
    )?;
    if balance_of(borrowed) < amount {
        return Err(ContractError::RepayOverflow {});
    }
    let new_position = debit(position, amount, ContractError::UpdateWrapTokenBorrowErr {})?;
    let new_borrowed = debit(borrowed, amount, ContractError::UpdateWrapTokenBorrowErr {})?;
    let wrapped = fetch(store, WRAPPED_TOKEN_BALANCE, asset, user)?;
    if wrapped.is_none() {
        return Err(ContractError::UpdateWrapTokenErr {});
    }
    let new_wrapped = credit(wrapped, amount, ContractError::Overflow {})?;

    put(store, USER_VTOKEN_BALANCE, asset, user, new_position)?;
    put(store, WRAPPED_TOKEN_BORROW_BALANCE, asset, user, new_borrowed)?;
    put(store, WRAPPED_TOKEN_BALANCE, asset, user, new_wrapped)?;

    let response = Response::new().add_attribute("method", "repay");
    assert(response@.attributes =~= seq![("method"@, "repay"@)]);
    Ok(response)
}

/// The balances after a repayment that wrote the rows `rows`.
pub open spec fn repaid_books(m: Balances, asset: Seq<char>, user: Seq<char>, rows: (u128, u128, u128)) -> Balances {
    with_row(
        with_row(
            with_row(m, USER_VTOKEN_BALANCE, asset, user, rows.0),
            WRAPPED_TOKEN_BORROW_BALANCE,
            asset,
            user,
            rows.1,
        ),
        WRAPPED_TOKEN_BALANCE,
        asset,
        user,
        rows.2,
    )
}

/// The repay bound. Take a positive amount, and balances on which the
/// Wrapped row is there and stays within `u128`. Then `repay` goes through
/// exactly when the amount is at most the Position and at most the Borrow;
/// and when it goes through, the Position and the Borrow have fallen by the
/// amount and the Wrapped balance has risen by it, each exactly.
pub proof fn lemma_repay_bound(
    before: &Store<'_>,
    after: &Store<'_>,
    info: MessageInfo,
    token_data: TokenData,
    r: Result<Response, ContractError>,
)
    requires
        repay_post(before, after, info, token_data, r),
        token_data.token_amount > 0,
        stored(balances(before), WRAPPED_TOKEN_BALANCE, token_data.token_address@, info.sender@)
            is Some,
        wrapped(balances(before), token_data.token_address@, info.sender@) + token_data.token_amount
            <= u128::MAX,
    ensures
        r is Ok <==> {
            &&& token_data.token_amount <= position(
                balances(before),
                token_data.token_address@,
                info.sender@,
            )
            &&& token_data.token_amount <= borrowed(
                balances(before),
                token_data.token_address@,
                info.sender@,
            )
        },
        r is Ok ==> {
            let asset = token_data.token_address@;
            let user = info.sender@;
            let amount = token_data.token_amount;
            &&& position(balances(after), asset, user) == position(balances(before), asset, user)
                - amount
            &&& borrowed(balances(after), asset, user) == borrowed(balances(before), asset, user)
                - amount
            &&& wrapped(balances(after), asset, user) == wrapped(balances(before), asset, user)
                + amount
        },
        r is Err ==> balances(after) == balances(before),
{
    lemma_ledgers_distinct();
}

/// A repayment goes through exactly when the Position, Borrow and Wrapped
/// rows are there, the Position and the Borrow each hold the amount, and
/// the Wrapped balance stays within `u128`.
pub proof fn lemma_repay_goes_through(m: Balances, asset: Seq<char>, user: Seq<char>, amount: u128)
    ensures
        repay_verdict(m, asset, user, amount) is Ok <==> {
            &&& stored(m, USER_VTOKEN_BALANCE, asset, user) is Some
            &&& stored(m, WRAPPED_TOKEN_BORROW_BALANCE, asset, user) is Some
            &&& stored(m, WRAPPED_TOKEN_BALANCE, asset, user) is Some
            &&& amount <= position(m, asset, user)
            &&& amount <= borrowed(m, asset, user)
            &&& wrapped(m, asset, user) + amount <= u128::MAX
        },
{
}

} // verus!
