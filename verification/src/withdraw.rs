//! Withdraw: collateral leaves the ledger and is paid out to its owner.

use crate::balance::{
    balance_of, borrowed, collateral, debit, fetch, fetch_or, held, put, stored, unreadable,
    with_row, wrap, wrapped, wrapped_for, Balances,
};
use crate::chain::{
    encode_transfer, transfer_json, Env, MessageInfo, Response, ResponseView, Transfer,
    TransferView,
};
use crate::error::{plain, refused, ContractError, ErrorView};
use crate::msg::WithdrawData;
use crate::state::{
    lemma_ledgers_distinct, TOKEN_BALANCE, WRAPPED_TOKEN_BALANCE, WRAPPED_TOKEN_BORROW_BALANCE,
};
use crate::store::{balances, contract_owner, is_storable, listed_tokens, order_books, Store};
use vstd::prelude::*;

verus! {

/// The transfer that pays `data.token_amount` out to `sender`: a request to
/// the token contract `data.usdc` where the type is `"fungible"`, coins of
/// the denomination `data.native` where it is `"native"`. `None` where the
/// type is neither, or where what the type needs is not given.
pub open spec fn payout(sender: Seq<char>, data: WithdrawData) -> Option<TransferView> {
    if data.withdraw_type@ == "fungible"@ {
        match data.usdc {
            Some(contract) => Some(
                TransferView::Fungible {
                    contract_addr: contract@,
                    msg: transfer_json(sender, data.token_amount),
                },
            ),
            None => None,
        }
    } else if data.withdraw_type@ == "native"@ {
        match data.native {
            Some(denom) => Some(
                TransferView::Native { to_address: sender, denom: denom@, amount: data.token_amount },
            ),
            None => None,
        }
    } else {
        None
    }
}

/// What a withdrawal by `sender` comes to on the balances `m`: the new
/// Collateral and Wrapped rows and the transfer to emit, or the reason for
/// which it is refused. The reasons are tried in the order written.
///
/// Ten Wrapped units leave with every unit of Collateral. Where ten times
/// the amount does not fit `u128`, the withdrawal is refused as an
/// `Overflow`, as a deposit of that amount is.
pub open spec fn withdraw_verdict(m: Balances, sender: Seq<char>, data: WithdrawData) -> Result<
    (u128, u128, TransferView),
    ErrorView,
> {
    let asset = data.token_address@;
    let amount = data.token_amount;
    let collateral = stored(m, TOKEN_BALANCE, asset, sender);
    let wrapped = stored(m, WRAPPED_TOKEN_BALANCE, asset, sender);
    let unwrapped = wrapped_for(amount);
    if unreadable(m, WRAPPED_TOKEN_BORROW_BALANCE, asset, sender) {
        Err(plain(ContractError::BorrowBalanceLoadError {}))
    } else if held(m, WRAPPED_TOKEN_BORROW_BALANCE, asset, sender) != 0 {
        Err(plain(ContractError::BorrowAmountIsNotZero {}))
    } else if unreadable(m, TOKEN_BALANCE, asset, sender) {
        Err(ErrorView::Generic("token balance load error"@))
    } else if collateral is None || collateral->0 < amount {
        Err(plain(ContractError::InsufficientBalance {}))
    } else if unwrapped is None {
        Err(plain(ContractError::Overflow {}))
    } else if unreadable(m, WRAPPED_TOKEN_BALANCE, asset, sender) {
        Err(ErrorView::Std)
    } else if wrapped is None {
        Err(plain(ContractError::InsufficientBalance {}))
    } else if wrapped->0 < unwrapped->0 {
        Err(plain(ContractError::Overflow {}))
    } else if payout(sender, data) is None {
        Err(ErrorView::Generic("Undefined withdraw type"@))
    } else {
        Ok(
            (
                (collateral->0 - amount) as u128,
                (wrapped->0 - unwrapped->0) as u128,
                payout(sender, data)->0,
            ),
        )
    }
}

/// The balances after a withdrawal that wrote the rows `rows`.
pub open spec fn withdrawn_books(m: Balances, asset: Seq<char>, user: Seq<char>, rows: (u128, u128)) -> Balances {
    with_row(with_row(m, TOKEN_BALANCE, asset, user, rows.0), WRAPPED_TOKEN_BALANCE, asset, user, rows.1)
}

/// What `withdraw` does to the store and returns.
///
/// A refusal changes nothing. A withdrawal that is not refused goes
/// through: it writes the Collateral and the Wrapped row and answers with
/// the transfer.
pub open spec fn withdraw_post(
    before: &Store<'_>,
    after: &Store<'_>,
    info: MessageInfo,
    data: WithdrawData,
    r: Result<Response, ContractError>,
) -> bool {
    let m = balances(before);
    let asset = data.token_address@;
    let user = info.sender@;
    &&& order_books(after) == order_books(before)
    &&& listed_tokens(after) == listed_tokens(before)
    &&& contract_owner(after) == contract_owner(before)
    &&& match withdraw_verdict(m, user, data) {
        Err(why) => refused(r, why) && balances(after) == m,
        Ok((collateral, wrapped, transfer)) => {
            &&& r matches Ok(response)
            &&& response@ == (ResponseView {
                attributes: seq![
                    ("method"@, "token_withdraw"@),
                    ("withdraw_data.token_address"@, asset),
                    ("user"@, user),
                ],
                messages: seq![transfer],
            })
            &&& balances(after) == withdrawn_books(m, asset, user, (collateral, wrapped))
        },
    }
}

/// The two withdrawal types have two different names.
pub proof fn lemma_types_distinct()
    ensures
        "fungible"@ != "native"@,
{
    reveal_strlit("fungible");
    reveal_strlit("native");
    assert("fungible"@.len() == 8);
    assert("native"@.len() == 6);
}

/// Takes `withdraw_data.token_amount` of the asset out of the sender's
/// Collateral, and ten times as much out of their Wrapped balance, and asks
/// for the amount to be paid out to the sender.
///
/// The sender must owe nothing on the asset.
pub fn withdraw(store: &mut Store<'_>, _env: Env, info: MessageInfo, withdraw_data: WithdrawData) -> (r:
    Result<Response, ContractError>)
    requires
        is_storable(withdraw_data.token_address@),
    ensures
        withdraw_post(old(store), final(store), info, withdraw_data, r),
{
    let asset = withdraw_data.token_address.as_str();
    let user = info.sender.as_str();
    let amount = withdraw_data.token_amount;

    let borrowed = fetch_or(
        store,
        WRAPPED_TOKEN_BORROW_BALANCE,
        asset,
        user,
        ContractError::BorrowBalanceLoadError {},
    )?;
    if balance_of(borrowed) > 0 {
        return Err(ContractError::BorrowAmountIsNotZero {});
    }
    let collateral = fetch_or(
        store,
        TOKEN_BALANCE,
        asset,
        user,
        ContractError::GenericError { error: "token balance load error".to_owned() },
    )?;
    if balance_of(collateral) < amount {
        return Err(ContractError::InsufficientBalance {});
    }
    let new_collateral = debit(collateral, amount, ContractError::InsufficientBalance {})?;
    let unwrapped = match wrap(amount) {
        Some(units) => units,
        None => {
            return Err(ContractError::Overflow {});
        },
    };
    let wrapped = fetch(store, WRAPPED_TOKEN_BALANCE, asset, user)?;
    let new_wrapped = debit(wrapped, unwrapped, ContractError::InsufficientBalance {})?;
    proof {
        lemma_types_distinct();
    }
    let fungible = "fungible".to_owned();
    let native = "native".to_owned();
    let transfer = if withdraw_data.withdraw_type == fungible {
        match &withdraw_data.usdc {
            Some(contract) => match encode_transfer(user, amount) {
                Ok(msg) => Transfer::Fungible { contract_addr: contract.clone(), msg },
                Err(e) => {
                    return Err(ContractError::Std(e));
                },
            },
            None => {
                return Err(ContractError::GenericError { error: "Undefined withdraw type".to_owned() });
            },
        }
    } else if withdraw_data.withdraw_type == native {
        match &withdraw_data.native {
            Some(denom) => Transfer::Native {
                to_address: info.sender.clone(),
                denom: denom.clone(),
                amount,
            },
            None => {
                return Err(ContractError::GenericError { error: "Undefined withdraw type".to_owned() });
            },
        }
    } else {
        return Err(ContractError::GenericError { error: "Undefined withdraw type".to_owned() });
    };

    put(store, TOKEN_BALANCE, asset, user, new_collateral)?;
    put(store, WRAPPED_TOKEN_BALANCE, asset, user, new_wrapped)?;

    let response = Response::new().add_attribute("method", "token_withdraw").add_attribute(
        "withdraw_data.token_address",
        asset,
    ).add_attribute("user", user).add_message(transfer);
    assert(response@.attributes =~= seq![
        ("method"@, "token_withdraw"@),
        ("withdraw_data.token_address"@, asset@),
        ("user"@, user@),
    ]);
    assert(response@.messages =~= seq![transfer@]);
    Ok(response)
}

/// A withdrawal goes through exactly when nothing is owed, the Collateral
/// row is there and holds the amount, the Wrapped row is there and holds
/// ten times the amount, and the withdrawal names a known type and what
/// that type needs.
pub proof fn lemma_withdraw_goes_through(m: Balances, sender: Seq<char>, data: WithdrawData)
    ensures
        withdraw_verdict(m, sender, data) is Ok <==> {
            let asset = data.token_address@;
            &&& !unreadable(m, WRAPPED_TOKEN_BORROW_BALANCE, asset, sender)
            &&& borrowed(m, asset, sender) == 0
            &&& stored(m, TOKEN_BALANCE, asset, sender) is Some
            &&& data.token_amount <= collateral(m, asset, sender)
            &&& stored(m, WRAPPED_TOKEN_BALANCE, asset, sender) is Some
            &&& 10 * data.token_amount <= wrapped(m, asset, sender)
            &&& payout(sender, data) is Some
        },
{
}

/// The withdraw gate. Whoever owes anything on an asset cannot withdraw
/// it: whatever the Collateral balance, the amount, the type and the
/// destination, `withdraw` refuses for that reason and changes nothing.
pub proof fn lemma_withdraw_needs_no_debt(
    before: &Store<'_>,
    after: &Store<'_>,
    info: MessageInfo,
    data: WithdrawData,
    r: Result<Response, ContractError>,
)
    requires
        withdraw_post(before, after, info, data, r),
        borrowed(balances(before), data.token_address@, info.sender@) != 0,
    ensures
        refused(r, plain(ContractError::BorrowAmountIsNotZero {})),
        balances(after) == balances(before),
{
}

/// Nobody withdraws more than their Collateral: where nothing is owed and
/// the rows can be read, an amount above the Collateral is refused as an
/// `InsufficientBalance` and changes nothing.
pub proof fn lemma_withdraw_needs_collateral(
    before: &Store<'_>,
    after: &Store<'_>,
    info: MessageInfo,
    data: WithdrawData,
    r: Result<Response, ContractError>,
)
    requires
        withdraw_post(before, after, info, data, r),
        !unreadable(balances(before), WRAPPED_TOKEN_BORROW_BALANCE, data.token_address@, info.sender@),
        !unreadable(balances(before), TOKEN_BALANCE, data.token_address@, info.sender@),
        borrowed(balances(before), data.token_address@, info.sender@) == 0,
        data.token_amount > collateral(balances(before), data.token_address@, info.sender@),
    ensures
        refused(r, plain(ContractError::InsufficientBalance {})),
        balances(after) == balances(before),
{
}

/// No multiple that leaves `u128` is silently dropped: where ten times the
/// amount does not fit, `withdraw` returns an error and changes nothing.
pub proof fn lemma_withdraw_overflow_is_refused(
    before: &Store<'_>,
    after: &Store<'_>,
    info: MessageInfo,
    data: WithdrawData,
    r: Result<Response, ContractError>,
)
    requires
        withdraw_post(before, after, info, data, r),
        10 * data.token_amount > u128::MAX,
    ensures
        r is Err,
        balances(after) == balances(before),
        ({
            let m = balances(before);
            let asset = data.token_address@;
            let user = info.sender@;
            &&& !unreadable(m, WRAPPED_TOKEN_BORROW_BALANCE, asset, user)
            &&& borrowed(m, asset, user) == 0
            &&& stored(m, TOKEN_BALANCE, asset, user) is Some
            &&& data.token_amount <= collateral(m, asset, user)
        }) ==> refused(r, plain(ContractError::Overflow {})),
{
}

/// A withdrawal without destination is refused: where the type is
/// `"fungible"` and no token contract is given, or `"native"` and no
/// denomination, `withdraw` returns an error and changes nothing.
pub proof fn lemma_withdraw_needs_destination(
    before: &Store<'_>,
    after: &Store<'_>,
    info: MessageInfo,
    data: WithdrawData,
    r: Result<Response, ContractError>,
)
    requires
        withdraw_post(before, after, info, data, r),
        (data.withdraw_type@ == "fungible"@ && data.usdc is None) || (data.withdraw_type@
            == "native"@ && data.native is None),
    ensures
        r is Err,
        balances(after) == balances(before),
{
    lemma_types_distinct();
}

/// A withdrawal that goes through found nothing owed and enough
/// Collateral; it leaves the Collateral lower by the amount and the Wrapped
/// balance lower by ten times the amount, each exactly.
pub proof fn lemma_withdraw_moves_the_amounts(
    before: &Store<'_>,
    after: &Store<'_>,
    info: MessageInfo,
    data: WithdrawData,
    r: Result<Response, ContractError>,
)
    requires
        withdraw_post(before, after, info, data, r),
        r is Ok,
    ensures
        ({
            let asset = data.token_address@;
            let user = info.sender@;
            &&& borrowed(balances(before), asset, user) == 0
            &&& data.token_amount <= collateral(balances(before), asset, user)
            &&& collateral(balances(after), asset, user) == collateral(balances(before), asset, user)
                - data.token_amount
            &&& wrapped(balances(after), asset, user) == wrapped(balances(before), asset, user) - 10
                * data.token_amount
        }),
{
    lemma_ledgers_distinct();
}

} // verus!
