//! Borrow: Wrapped capacity is lent out and becomes Position.

use crate::balance::{
    balance_of, borrowed, credit, credited, debit, fetch, fetch_or, held, position, put, stored,
    unreadable, with_row, wrapped, Balances,
};
use crate::chain::{Env, MessageInfo, Response, ResponseView};
use crate::error::{plain, refused, ContractError, ErrorView};
use crate::msg::TokenData;
use crate::state::{
    lemma_ledgers_distinct, USER_VTOKEN_BALANCE, WRAPPED_TOKEN_BALANCE,
    WRAPPED_TOKEN_BORROW_BALANCE,
};
use crate::store::{balances, contract_owner, is_storable, listed_tokens, order_books, Store};
use vstd::prelude::*;

verus! {

/// What a borrow of `amount` of `asset` by `user` comes to on the balances
/// `m`: the new Wrapped, Borrow and Position rows, or the reason for which
/// it is refused. The reasons are tried in the order written.
pub open spec fn borrow_verdict(m: Balances, asset: Seq<char>, user: Seq<char>, amount: u128) -> Result<
    (u128, u128, u128),
    ErrorView,
> {
    let wrapped = stored(m, WRAPPED_TOKEN_BALANCE, asset, user);
    let borrowed = credited(stored(m, WRAPPED_TOKEN_BORROW_BALANCE, asset, user), amount);
    let position = credited(stored(m, USER_VTOKEN_BALANCE, asset, user), amount);
    if unreadable(m, WRAPPED_TOKEN_BALANCE, asset, user) {
        Err(plain(ContractError::UnmintedBalanceLoadError {}))
    } else if held(m, WRAPPED_TOKEN_BALANCE, asset, user) < amount {
        Err(plain(ContractError::InsufficientUnmintedToken {}))
    } else if wrapped is None {
        Err(plain(ContractError::UpdateWrapTokenErr {}))
    } else if unreadable(m, WRAPPED_TOKEN_BORROW_BALANCE, asset, user) {
        Err(ErrorView::Std)
    } else if borrowed is None {
        Err(plain(ContractError::Overflow {}))
    } else if unreadable(m, USER_VTOKEN_BALANCE, asset, user) {
        Err(ErrorView::Std)
    } else if position is None {
        Err(plain(ContractError::Overflow {}))
    } else {
        Ok(((wrapped->0 - amount) as u128, borrowed->0, position->0))
    }
}

/// What `borrow` does to the store and returns.
///
/// A refusal changes nothing. A borrow that is not refused goes through:
/// it writes the Wrapped, the Borrow and the Position row.
pub open spec fn borrow_post(
    before: &Store<'_>,
    after: &Store<'_>,
    info: MessageInfo,
    token_data: TokenData,
    r: Result<Response, ContractError>,
) -> bool {
    let m = balances(before);
    let asset = token_data.token_address@;
    let user = info.sender@;
    &&& order_books(after) == order_books(before)
    &&& listed_tokens(after) == listed_tokens(before)
    &&& contract_owner(after) == contract_owner(before)
    &&& match borrow_verdict(m, asset, user, token_data.token_amount) {
        Err(why) => refused(r, why) && balances(after) == m,
        Ok(rows) => {
            &&& r matches Ok(response)
            &&& response@ == (ResponseView {
                attributes: seq![("method"@, "borrow"@)],
                messages: seq![],
            })
            &&& balances(after) == borrowed_books(m, asset, user, rows)
        },
    }
}

/// Lends `token_data.token_amount` of the asset to the sender: the amount
/// leaves their Wrapped balance and is added to their Borrow and to their
/// Position.
pub fn borrow(store: &mut Store<'_>, _env: Env, info: MessageInfo, token_data: TokenData) -> (r: Result<
    Response,
    ContractError,
>)
    requires
        is_storable(token_data.token_address@),
    ensures
        borrow_post(old(store), final(store), info, token_data, r),
{
    let asset = token_data.token_address.as_str();
    let user = info.sender.as_str();
    let amount = token_data.token_amount;

    let wrapped = fetch_or(
        store,
        WRAPPED_TOKEN_BALANCE,
        asset,
        user,
        ContractError::UnmintedBalanceLoadError {},
    )?;
    if balance_of(wrapped) < amount {
        return Err(ContractError::InsufficientUnmintedToken {});
    }
    let new_wrapped = debit(wrapped, amount, ContractError::UpdateWrapTokenErr {})?;
    let borrowed = fetch(store, WRAPPED_TOKEN_BORROW_BALANCE, asset, user)?;
    let new_borrowed = credit(borrowed, amount, ContractError::Overflow {})?;
    let position = fetch(store, USER_VTOKEN_BALANCE, asset, user)?;
    let new_position = credit(position, amount, ContractError::Overflow {})?;

    put(store, WRAPPED_TOKEN_BALANCE, asset, user, new_wrapped)?;
    put(store, WRAPPED_TOKEN_BORROW_BALANCE, asset, user, new_borrowed)?;
    put(store, USER_VTOKEN_BALANCE, asset, user, new_position)?;

    let response = Response::new().add_attribute("method", "borrow");
    assert(response@.attributes =~= seq![("method"@, "borrow"@)]);
    Ok(response)
}

/// The balances after a borrow that wrote the rows `rows`.
pub open spec fn borrowed_books(m: Balances, asset: Seq<char>, user: Seq<char>, rows: (u128, u128, u128)) -> Balances {
    with_row(
        with_row(
            with_row(m, WRAPPED_TOKEN_BALANCE, asset, user, rows.0),
            WRAPPED_TOKEN_BORROW_BALANCE,
            asset,
            user,
            rows.1,
        ),
        USER_VTOKEN_BALANCE,
        asset,
        user,
        rows.2,
    )
}

/// The borrow bound. Take a positive amount, and balances on which the
/// Borrow and Position rows can be read and stay within `u128`. Then
/// `borrow` goes through exactly when the amount is at most the Wrapped
/// balance; and when it goes through, the Wrapped balance has fallen by the
/// amount and the Borrow and the Position have risen by it, each exactly.
pub proof fn lemma_borrow_bound(
    before: &Store<'_>,
    after: &Store<'_>,
    info: MessageInfo,
    token_data: TokenData,
    r: Result<Response, ContractError>,
)
    requires
        borrow_post(before, after, info, token_data, r),
        token_data.token_amount > 0,
        !unreadable(balances(before), WRAPPED_TOKEN_BORROW_BALANCE, token_data.token_address@, info.sender@),
        !unreadable(balances(before), USER_VTOKEN_BALANCE, token_data.token_address@, info.sender@),
        borrowed(balances(before), token_data.token_address@, info.sender@) + token_data.token_amount
            <= u128::MAX,
        position(balances(before), token_data.token_address@, info.sender@) + token_data.token_amount
            <= u128::MAX,
    ensures
        r is Ok <==> token_data.token_amount <= wrapped(
            balances(before),
            token_data.token_address@,
            info.sender@,
        ),
        r is Ok ==> {
            let asset = token_data.token_address@;
            let user = info.sender@;
            let amount = token_data.token_amount;
            &&& wrapped(balances(after), asset, user) == wrapped(balances(before), asset, user)
                - amount
            &&& borrowed(balances(after), asset, user) == borrowed(balances(before), asset, user)
                + amount
            &&& position(balances(after), asset, user) == position(balances(before), asset, user)
                + amount
        },
        r is Err ==> balances(after) == balances(before),
{
    lemma_ledgers_distinct();
}

/// A borrow goes through exactly when the Wrapped row is there and holds
/// the amount, the Borrow and Position rows can be read, and neither of
/// the two leaves `u128`.
pub proof fn lemma_borrow_goes_through(m: Balances, asset: Seq<char>, user: Seq<char>, amount: u128)
    ensures
        borrow_verdict(m, asset, user, amount) is Ok <==> {
            &&& stored(m, WRAPPED_TOKEN_BALANCE, asset, user) is Some
            &&& amount <= wrapped(m, asset, user)
            &&& !unreadable(m, WRAPPED_TOKEN_BORROW_BALANCE, asset, user)
            &&& !unreadable(m, USER_VTOKEN_BALANCE, asset, user)
            &&& borrowed(m, asset, user) + amount <= u128::MAX
            &&& position(m, asset, user) + amount <= u128::MAX
        },
{
}

} // verus!
