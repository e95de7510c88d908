//! Deposit: collateral enters the ledger, and ten Wrapped units are minted
//! for every unit of it.
//!
//! There are two ways in. Native coins come attached to the call. Tokens
//! are announced by their token contract, which must be on the list of
//! accepted assets; they are all booked on the asset `USDC`.

use crate::balance::{
    collateral, credit, credited, fetch, put, stored, unreadable, with_row, wrap, wrapped,
    wrapped_for, Balances,
};
use crate::chain::{Env, MessageInfo, Response, ResponseView};
use crate::error::{plain, refused, ContractError, ErrorView};
use crate::msg::Cw20ReceiveMsg;
use crate::state::{lemma_ledgers_distinct, LISTED_TOKEN, TOKEN_BALANCE, WRAPPED_TOKEN_BALANCE};
use crate::store::{
    balances, contract_owner, is_storable, listed_tokens, load_listed_tokens, order_books,
    same_contents, texts, Store,
};
use vstd::prelude::*;
use vstd::utf8::is_ascii_chars_encode_utf8;

verus! {

/// The asset on which every token deposit is booked.
pub const FUNGIBLE_ASSET: &'static str = "USDC";

/// What a deposit of `amount` of `asset` for `user` comes to on the
/// balances `m`: the new Collateral and Wrapped rows, or the reason for
/// which it is refused. The reasons are tried in the order written.
///
/// Where the Collateral or the minted amount leaves `u128` the refusal is
/// an `Overflow`; where the Wrapped balance does, it is an
/// `OverflowBalance`.
pub open spec fn deposit_verdict(m: Balances, asset: Seq<char>, user: Seq<char>, amount: u128) -> Result<
    (u128, u128),
    ErrorView,
> {
    let collateral = credited(stored(m, TOKEN_BALANCE, asset, user), amount);
    let minted = wrapped_for(amount);
    if unreadable(m, TOKEN_BALANCE, asset, user) {
        Err(ErrorView::Std)
    } else if collateral is None || minted is None {
        Err(plain(ContractError::Overflow {}))
    } else if unreadable(m, WRAPPED_TOKEN_BALANCE, asset, user) {
        Err(ErrorView::Std)
    } else if credited(stored(m, WRAPPED_TOKEN_BALANCE, asset, user), minted->0) is None {
        Err(plain(ContractError::OverflowBalance {}))
    } else {
        Ok((collateral->0, credited(stored(m, WRAPPED_TOKEN_BALANCE, asset, user), minted->0)->0))
    }
}

/// What a deposit does to the balances and whether it goes through, as
/// `r` says. A refusal changes nothing. A deposit that is not refused goes
/// through: it writes the Collateral and the Wrapped row.
pub open spec fn deposit_books(
    m: Balances,
    after: Balances,
    asset: Seq<char>,
    user: Seq<char>,
    amount: u128,
    r: Result<(), ContractError>,
) -> bool {
    match deposit_verdict(m, asset, user, amount) {
        Err(why) => refused(r, why) && after == m,
        Ok(rows) => r is Ok && after == deposited_books(m, asset, user, rows),
    }
}

/// Books a deposit of `amount` of `asset` for `user`.
fn book(store: &mut Store<'_>, asset: &str, user: &str, amount: u128) -> (r: Result<(), ContractError>)
    requires
        is_storable(asset@),
    ensures
        deposit_books(balances(old(store)), balances(final(store)), asset@, user@, amount, r),
        order_books(final(store)) == order_books(old(store)),
        listed_tokens(final(store)) == listed_tokens(old(store)),
        contract_owner(final(store)) == contract_owner(old(store)),
{
    let collateral = fetch(store, TOKEN_BALANCE, asset, user)?;
    let new_collateral = credit(collateral, amount, ContractError::Overflow {})?;
    let minted = match wrap(amount) {
        Some(units) => units,
        None => {
            return Err(ContractError::Overflow {});
        },
    };
    let wrapped = fetch(store, WRAPPED_TOKEN_BALANCE, asset, user)?;
    let new_wrapped = credit(wrapped, minted, ContractError::OverflowBalance {})?;

    put(store, TOKEN_BALANCE, asset, user, new_collateral)?;
    put(store, WRAPPED_TOKEN_BALANCE, asset, user, new_wrapped)?;
    Ok(())
}

/// What `native_token` does to the store and returns: a call without a
/// coin, or whose first coin is empty, is refused; any other books that
/// coin's amount on `token_address` for the sender.
pub open spec fn native_token_post(
    before: &Store<'_>,
    after: &Store<'_>,
    info: MessageInfo,
    token_address: String,
    r: Result<Response, ContractError>,
) -> bool {
    let amount = info.funds@[0].amount;
    &&& order_books(after) == order_books(before)
    &&& listed_tokens(after) == listed_tokens(before)
    &&& contract_owner(after) == contract_owner(before)
    &&& if info.funds@.len() == 0 || amount == 0 {
        refused(r, plain(ContractError::InsufficientNativeToken {})) && balances(after) == balances(
            before,
        )
    } else {
        &&& deposit_books(
            balances(before),
            balances(after),
            token_address@,
            info.sender@,
            amount,
            match r {
                Ok(_) => Ok(()),
                Err(e) => Err(e),
            },
        )
        &&& r matches Ok(response) ==> response@ == (ResponseView {
            attributes: seq![("method"@, "deposit_collateral_native"@)],
            messages: seq![],
        })
    }
}

/// Deposits the first coin attached to the call as collateral of the
/// sender in the asset `token_address`.
pub fn native_token(store: &mut Store<'_>, _env: Env, info: MessageInfo, token_address: String) -> (r: Result<
    Response,
    ContractError,
>)
    requires
        is_storable(token_address@),
    ensures
        native_token_post(old(store), final(store), info, token_address, r),
{
    if info.funds.len() == 0 {
        return Err(ContractError::InsufficientNativeToken {});
    }
    let amount = info.funds[0].amount;
    if amount == 0 {
        return Err(ContractError::InsufficientNativeToken {});
    }
    book(store, token_address.as_str(), info.sender.as_str(), amount)?;

    let response = Response::new().add_attribute("method", "deposit_collateral_native");
    assert(response@.attributes =~= seq![("method"@, "deposit_collateral_native"@)]);
    Ok(response)
}

/// `token` is one of `tokens`.
pub open spec fn is_listed(tokens: Seq<Seq<char>>, token: Seq<char>) -> bool {
    exists|i: int| 0 <= i < tokens.len() && tokens[i] == token
}

/// Whether `token` is one of `tokens`.
pub fn contains(tokens: &Vec<String>, token: &str) -> (found: bool)
    ensures
        found == is_listed(texts(tokens@), token@),
{
    let wanted = token.to_owned();
    let mut i: usize = 0;
    while i < tokens.len()
        invariant
            i <= tokens.len(),
            wanted@ == token@,
            forall|j: int| 0 <= j < i ==> tokens@[j]@ != token@,
        decreases tokens.len() - i,
    {
        if tokens[i] == wanted {
            assert(texts(tokens@)[i as int] == token@);
            return true;
        }
        i += 1;
    }
    false
}

/// The token contract `sender` may announce deposits: the list of accepted
/// assets can be read and names it.
pub open spec fn accepts(listed: Option<Seq<Seq<char>>>, sender: Seq<char>) -> bool {
    listed matches Some(tokens) && is_listed(tokens, sender)
}

/// What `fungible_token` does to the store and returns: an announcement by
/// a contract that is not accepted is refused; any other books
/// `msg.amount` on `USDC` for `msg.sender`.
pub open spec fn fungible_token_post(
    before: &Store<'_>,
    after: &Store<'_>,
    info: MessageInfo,
    msg: Cw20ReceiveMsg,
    r: Result<Response, ContractError>,
) -> bool {
    &&& order_books(after) == order_books(before)
    &&& listed_tokens(after) == listed_tokens(before)
    &&& contract_owner(after) == contract_owner(before)
    &&& if !accepts(listed_tokens(before), info.sender@) {
        refused(r, plain(ContractError::UnauthorizedToken {})) && balances(after) == balances(
            before,
        )
    } else {
        &&& deposit_books(
            balances(before),
            balances(after),
            FUNGIBLE_ASSET@,
            msg.sender@,
            msg.amount,
            match r {
                Ok(_) => Ok(()),
                Err(e) => Err(e),
            },
        )
        &&& r matches Ok(response) ==> response@ == (ResponseView {
            attributes: seq![
                ("method"@, "token_deposit"@),
                ("token_owner"@, msg.sender@),
                ("token_address"@, info.sender@),
            ],
            messages: seq![],
        })
    }
}

/// Books the tokens that the calling token contract has received from
/// `msg.sender` as that user's collateral in `USDC`.
pub fn fungible_token(store: &mut Store<'_>, _env: Env, info: MessageInfo, msg: Cw20ReceiveMsg) -> (r: Result<
    Response,
    ContractError,
>)
    ensures
        fungible_token_post(old(store), final(store), info, msg, r),
{
    let tokens = match load_listed_tokens(store, LISTED_TOKEN) {
        Ok(tokens) => tokens,
        Err(_) => Vec::new(),
    };
    if !contains(&tokens, info.sender.as_str()) {
        return Err(ContractError::UnauthorizedToken {});
    }
    proof {
        lemma_fungible_asset_storable();
    }
    book(store, FUNGIBLE_ASSET, msg.sender.as_str(), msg.amount)?;

    let response = Response::new().add_attribute("method", "token_deposit").add_attribute(
        "token_owner",
        msg.sender.as_str(),
    ).add_attribute("token_address", info.sender.as_str());
    assert(response@.attributes =~= seq![
        ("method"@, "token_deposit"@),
        ("token_owner"@, msg.sender@),
        ("token_address"@, info.sender@),
    ]);
    Ok(response)
}

/// `USDC` can be part of a balance key.
pub proof fn lemma_fungible_asset_storable()
    ensures
        is_storable(FUNGIBLE_ASSET@),
{
    reveal_strlit("USDC");
    is_ascii_chars_encode_utf8(FUNGIBLE_ASSET@);
}

/// The balances after a deposit that wrote the rows `rows`.
pub open spec fn deposited_books(m: Balances, asset: Seq<char>, user: Seq<char>, rows: (u128, u128)) -> Balances {
    with_row(with_row(m, TOKEN_BALANCE, asset, user, rows.0), WRAPPED_TOKEN_BALANCE, asset, user, rows.1)
}

/// The deposit ratio, for native coins. Where the two rows can be read
/// and stay within `u128`, a deposit of a positive amount goes through and
/// leaves the sender's Collateral in the asset higher by exactly the amount
/// and their Wrapped balance higher by exactly ten times the amount,
/// whatever the asset.
pub proof fn lemma_native_deposit_ratio(
    before: &Store<'_>,
    after: &Store<'_>,
    info: MessageInfo,
    token_address: String,
    r: Result<Response, ContractError>,
)
    requires
        native_token_post(before, after, info, token_address, r),
        info.funds@.len() > 0,
        info.funds@[0].amount > 0,
        !unreadable(balances(before), TOKEN_BALANCE, token_address@, info.sender@),
        !unreadable(balances(before), WRAPPED_TOKEN_BALANCE, token_address@, info.sender@),
        collateral(balances(before), token_address@, info.sender@) + info.funds@[0].amount
            <= u128::MAX,
        wrapped(balances(before), token_address@, info.sender@) + 10 * info.funds@[0].amount
            <= u128::MAX,
    ensures
        r is Ok,
        collateral(balances(after), token_address@, info.sender@) == collateral(
            balances(before),
            token_address@,
            info.sender@,
        ) + info.funds@[0].amount,
        wrapped(balances(after), token_address@, info.sender@) == wrapped(
            balances(before),
            token_address@,
            info.sender@,
        ) + 10 * info.funds@[0].amount,
{
    lemma_ledgers_distinct();
}

/// The deposit ratio, for tokens. Where the calling contract is accepted
/// and the two rows can be read and stay within `u128`, its announcement
/// goes through and leaves the Collateral of the token owner in `USDC`
/// higher by exactly the amount and their Wrapped balance higher by exactly
/// ten times the amount. It is the owner `msg.sender` who is credited, not
/// the calling contract.
pub proof fn lemma_fungible_deposit_ratio(
    before: &Store<'_>,
    after: &Store<'_>,
    info: MessageInfo,
    msg: Cw20ReceiveMsg,
    r: Result<Response, ContractError>,
)
    requires
        fungible_token_post(before, after, info, msg, r),
        accepts(listed_tokens(before), info.sender@),
        !unreadable(balances(before), TOKEN_BALANCE, FUNGIBLE_ASSET@, msg.sender@),
        !unreadable(balances(before), WRAPPED_TOKEN_BALANCE, FUNGIBLE_ASSET@, msg.sender@),
        collateral(balances(before), FUNGIBLE_ASSET@, msg.sender@) + msg.amount <= u128::MAX,
        wrapped(balances(before), FUNGIBLE_ASSET@, msg.sender@) + 10 * msg.amount <= u128::MAX,
    ensures
        r is Ok,
        collateral(balances(after), FUNGIBLE_ASSET@, msg.sender@) == collateral(
            balances(before),
            FUNGIBLE_ASSET@,
            msg.sender@,
        ) + msg.amount,
        wrapped(balances(after), FUNGIBLE_ASSET@, msg.sender@) == wrapped(
            balances(before),
            FUNGIBLE_ASSET@,
            msg.sender@,
        ) + 10 * msg.amount,
{
    lemma_ledgers_distinct();
}

/// A native deposit without funds is refused: where no coin is attached,
/// or the first coin is empty, `native_token` returns an
/// `InsufficientNativeToken` and changes nothing.
pub proof fn lemma_native_deposit_needs_funds(
    before: &Store<'_>,
    after: &Store<'_>,
    info: MessageInfo,
    token_address: String,
    r: Result<Response, ContractError>,
)
    requires
        native_token_post(before, after, info, token_address, r),
        info.funds@.len() == 0 || info.funds@[0].amount == 0,
    ensures
        refused(r, plain(ContractError::InsufficientNativeToken {})),
        same_contents(after, before),
{
}

/// A native deposit touches two rows at most: whatever the arguments and
/// however it ends, every balance row other than the sender's Collateral
/// and Wrapped rows in the asset is as it was, and so are the histories,
/// the list and the owner.
pub proof fn lemma_native_deposit_frame(
    before: &Store<'_>,
    after: &Store<'_>,
    info: MessageInfo,
    token_address: String,
    r: Result<Response, ContractError>,
    key: (Seq<char>, Seq<char>, Seq<char>),
)
    requires
        native_token_post(before, after, info, token_address, r),
        key != (TOKEN_BALANCE@, token_address@, info.sender@),
        key != (WRAPPED_TOKEN_BALANCE@, token_address@, info.sender@),
    ensures
        balances(after).dom().contains(key) == balances(before).dom().contains(key),
        balances(after)[key] == balances(before)[key],
        order_books(after) == order_books(before),
        listed_tokens(after) == listed_tokens(before),
        contract_owner(after) == contract_owner(before),
{
}

/// A deposit goes through exactly when both rows can be read and neither
/// the Collateral, nor ten times the amount, nor the Wrapped balance leaves
/// `u128`.
pub proof fn lemma_deposit_goes_through(m: Balances, asset: Seq<char>, user: Seq<char>, amount: u128)
    ensures
        deposit_verdict(m, asset, user, amount) is Ok <==> {
            &&& !unreadable(m, TOKEN_BALANCE, asset, user)
            &&& !unreadable(m, WRAPPED_TOKEN_BALANCE, asset, user)
            &&& collateral(m, asset, user) + amount <= u128::MAX
            &&& wrapped(m, asset, user) + 10 * amount <= u128::MAX
        },
{
}

} // verus!
