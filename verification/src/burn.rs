//! Redeem: Position is burned and becomes Collateral again, one unit for
//! every ten, once nothing is owed.

use crate::balance::{
    balance_of, borrowed, collateral, collateral_for, credit, credited, debit, fetch, fetch_or,
    held, position, put, redeem, stored, unreadable, with_row, wrapped, Balances,
};
use crate::chain::{Env, MessageInfo, Response, ResponseView};
use crate::error::{plain, refused, ContractError, ErrorView};
use crate::msg::TokenData;
use crate::state::{
    lemma_ledgers_distinct, TOKEN_BALANCE, USER_VTOKEN_BALANCE, WRAPPED_TOKEN_BALANCE,
    WRAPPED_TOKEN_BORROW_BALANCE,
};
use crate::store::{balances, contract_owner, is_storable, listed_tokens, order_books, Store};
use vstd::prelude::*;

verus! {

/// What a redemption of `amount` of `asset` by `user` comes to on the
/// balances `m`: the new Collateral, Wrapped and Position rows, or the
/// reason for which it is refused. The reasons are tried in the order
/// written.
///
/// The Collateral credited is a tenth of the amount, rounded down: what
/// the division leaves over is lost.
pub open spec fn burn_verdict(m: Balances, asset: Seq<char>, user: Seq<char>, amount: u128) -> Result<
    (u128, u128, u128),
    ErrorView,
> {
    let collateral = credited(stored(m, TOKEN_BALANCE, asset, user), collateral_for(amount));
    let wrapped = credited(stored(m, WRAPPED_TOKEN_BALANCE, asset, user), amount);
    let position = stored(m, USER_VTOKEN_BALANCE, asset, user);
    if unreadable(m, WRAPPED_TOKEN_BORROW_BALANCE, asset, user) {
        Err(plain(ContractError::BorrowBalanceLoadError {}))
    } else if held(m, WRAPPED_TOKEN_BORROW_BALANCE, asset, user) != 0 {
        Err(plain(ContractError::PayBorrowAmount {}))
    } else if unreadable(m, USER_VTOKEN_BALANCE, asset, user) {
        Err(plain(ContractError::ProfitBalanceLoadError {}))
    } else if held(m, USER_VTOKEN_BALANCE, asset, user) < amount {
        Err(plain(ContractError::InsufficientBalance {}))
    } else if unreadable(m, TOKEN_BALANCE, asset, user) {
        Err(ErrorView::Std)
    } else if collateral is None {
        Err(plain(ContractError::Overflow {}))
    } else if unreadable(m, WRAPPED_TOKEN_BALANCE, asset, user) {
        Err(ErrorView::Std)
    } else if wrapped is None {
        Err(plain(ContractError::Overflow {}))
    } else if position is None {
        Err(ErrorView::Generic("doesn't have v tokens"@))
    } else {
        Ok((collateral->0, wrapped->0, (position->0 - amount) as u128))
    }
}

/// What `burn` does to the store and returns.
///
/// A refusal changes nothing. A redemption that is not refused goes
/// through: it writes the Collateral, the Wrapped and the Position row.
pub open spec fn burn_post(
    before: &Store<'_>,
    after: &Store<'_>,
    info: MessageInfo,
    token_data: TokenData,
    r: Result<Response, ContractError>,
) -> bool {
    let m = balances(before);
    let asset = token_data.token_address@;
    let user = info.sender@;
    &&& order_books(after) == order_books(before)
    &&& listed_tokens(after) == listed_tokens(before)
    &&& contract_owner(after) == contract_owner(before)
    &&& match burn_verdict(m, asset, user, token_data.token_amount) {
        Err(why) => refused(r, why) && balances(after) == m,
        Ok(rows) => {
            &&& r matches Ok(response)
            &&& response@ == (ResponseView { attributes: seq![], messages: seq![] })
            &&& balances(after) == redeemed_books(m, asset, user, rows)
        },
    }
}

/// Burns `token_data.token_amount` of the sender's Position in the asset:
/// a tenth of it, rounded down, is added to their Collateral, and the whole
/// amount to their Wrapped balance.
///
/// The sender must owe nothing on the asset.
pub fn burn(store: &mut Store<'_>, _env: Env, info: MessageInfo, token_data: TokenData) -> (r: Result<
    Response,
    ContractError,
>)
    requires
        is_storable(token_data.token_address@),
    ensures
        burn_post(old(store), final(store), info, token_data, r),
{
    let asset = token_data.token_address.as_str();
    let user = info.sender.as_str();
    let amount = token_data.token_amount;

    let borrowed = fetch_or(
        store,
        WRAPPED_TOKEN_BORROW_BALANCE,
        asset,
        user,
        ContractError::BorrowBalanceLoadError {},
    )?;
    if balance_of(borrowed) > 0 {
        return Err(ContractError::PayBorrowAmount {});
    }
    let position = fetch_or(
        store,
        USER_VTOKEN_BALANCE,
        asset,
        user,
        ContractError::ProfitBalanceLoadError {},
    )?;
    if balance_of(position) < amount {
        return Err(ContractError::InsufficientBalance {});
    }
    let collateral = fetch(store, TOKEN_BALANCE, asset, user)?;
    let new_collateral = credit(collateral, redeem(amount), ContractError::Overflow {})?;
    let wrapped = fetch(store, WRAPPED_TOKEN_BALANCE, asset, user)?;
    let new_wrapped = credit(wrapped, amount, ContractError::Overflow {})?;
    let new_position = debit(
        position,
        amount,
        ContractError::GenericError { error: "doesn't have v tokens".to_owned() },
    )?;

    put(store, TOKEN_BALANCE, asset, user, new_collateral)?;
    put(store, WRAPPED_TOKEN_BALANCE, asset, user, new_wrapped)?;
    put(store, USER_VTOKEN_BALANCE, asset, user, new_position)?;

    Ok(Response::new())
}

/// The redeem gate. Whoever owes anything on an asset cannot redeem it:
/// whatever the Position balance and the amount asked for, `burn` refuses
/// for that reason and changes nothing.
pub proof fn lemma_burn_needs_no_debt(
    before: &Store<'_>,
    after: &Store<'_>,
    info: MessageInfo,
    token_data: TokenData,
    r: Result<Response, ContractError>,
)
    requires
        burn_post(before, after, info, token_data, r),
        borrowed(balances(before), token_data.token_address@, info.sender@) != 0,
    ensures
        refused(r, plain(ContractError::PayBorrowAmount {})),
        balances(after) == balances(before),
{
}

/// The balances after a redemption that wrote the rows `rows`.
pub open spec fn redeemed_books(m: Balances, asset: Seq<char>, user: Seq<char>, rows: (u128, u128, u128)) -> Balances {
    with_row(
        with_row(with_row(m, TOKEN_BALANCE, asset, user, rows.0), WRAPPED_TOKEN_BALANCE, asset, user, rows.1),
        USER_VTOKEN_BALANCE,
        asset,
        user,
        rows.2,
    )
}

/// A redemption that goes through found nothing owed and enough Position;
/// it leaves the Collateral higher by a tenth of the amount, rounded down,
/// the Wrapped balance higher by the amount, and the Position lower by the
/// amount, each exactly.
pub proof fn lemma_burn_moves_the_amounts(
    before: &Store<'_>,
    after: &Store<'_>,
    info: MessageInfo,
    token_data: TokenData,
    r: Result<Response, ContractError>,
)
    requires
        burn_post(before, after, info, token_data, r),
        r is Ok,
    ensures
        ({
            let asset = token_data.token_address@;
            let user = info.sender@;
            let amount = token_data.token_amount;
            &&& borrowed(balances(before), asset, user) == 0
            &&& amount <= position(balances(before), asset, user)
            &&& collateral(balances(after), asset, user) == collateral(balances(before), asset, user)
                + amount / 10
            &&& wrapped(balances(after), asset, user) == wrapped(balances(before), asset, user)
                + amount
            &&& position(balances(after), asset, user) == position(balances(before), asset, user)
                - amount
        }),
{
    lemma_ledgers_distinct();
}

/// A redemption goes through exactly when nothing is owed, the Position
/// row is there and holds the amount, the rows can be read, and neither
/// the Collateral nor the Wrapped balance leaves `u128`.
pub proof fn lemma_burn_goes_through(m: Balances, asset: Seq<char>, user: Seq<char>, amount: u128)
    ensures
        burn_verdict(m, asset, user, amount) is Ok <==> {
            &&& !unreadable(m, WRAPPED_TOKEN_BORROW_BALANCE, asset, user)
            &&& borrowed(m, asset, user) == 0
            &&& stored(m, USER_VTOKEN_BALANCE, asset, user) is Some
            &&& amount <= position(m, asset, user)
            &&& !unreadable(m, TOKEN_BALANCE, asset, user)
            &&& !unreadable(m, WRAPPED_TOKEN_BALANCE, asset, user)
            &&& collateral(m, asset, user) + amount / 10 <= u128::MAX
            &&& wrapped(m, asset, user) + amount <= u128::MAX
        },
{
}

} // verus!
