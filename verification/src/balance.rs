//! Balance rows and the checked arithmetic on them.
//!
//! A row is absent until it is first written, and an absent row counts as
//! zero wherever a balance is only read. Every change of a row is computed
//! with checked arithmetic: a result outside `u128` is a failure, never a
//! wrapped value.

use crate::error::{ContractError, ErrorView};
use crate::state::{
    is_balance_ledger, TOKEN_BALANCE, USER_VTOKEN_BALANCE, WRAPPED_TOKEN_BALANCE,
    WRAPPED_TOKEN_BORROW_BALANCE,
};
use crate::store::{
    balances, contract_owner, is_storable, listed_tokens, load_balance, order_books, save_balance,
    Store,
};
use vstd::prelude::*;

verus! {

/// The number of Wrapped units that one unit of Collateral stands for.
pub const WRAPPED_PER_COLLATERAL: u128 = 10;

/// The balance rows of a store: see `crate::store::balances`.
pub type Balances = Map<(Seq<char>, Seq<char>, Seq<char>), Option<u128>>;

/// The row of `asset` and `user` in `ledger` is there and cannot be read.
pub open spec fn unreadable(m: Balances, ledger: &str, asset: Seq<char>, user: Seq<char>) -> bool {
    m.contains_pair((ledger@, asset, user), None)
}

/// The row of `asset` and `user` in `ledger`: `None` where there is none
/// (or none that can be read).
pub open spec fn stored(m: Balances, ledger: &str, asset: Seq<char>, user: Seq<char>) -> Option<u128> {
    if m.dom().contains((ledger@, asset, user)) {
        m[(ledger@, asset, user)]
    } else {
        None
    }
}

/// The balance of `asset` and `user` in `ledger`: what the row holds, and
/// zero where there is no row.
pub open spec fn held(m: Balances, ledger: &str, asset: Seq<char>, user: Seq<char>) -> u128 {
    quantity(stored(m, ledger, asset, user))
}

/// The Collateral of `user` in `asset`.
pub open spec fn collateral(m: Balances, asset: Seq<char>, user: Seq<char>) -> u128 {
    held(m, TOKEN_BALANCE, asset, user)
}

/// The Wrapped balance of `user` in `asset`.
pub open spec fn wrapped(m: Balances, asset: Seq<char>, user: Seq<char>) -> u128 {
    held(m, WRAPPED_TOKEN_BALANCE, asset, user)
}

/// The Borrow of `user` in `asset`.
pub open spec fn borrowed(m: Balances, asset: Seq<char>, user: Seq<char>) -> u128 {
    held(m, WRAPPED_TOKEN_BORROW_BALANCE, asset, user)
}

/// The Position of `user` in `asset`.
pub open spec fn position(m: Balances, asset: Seq<char>, user: Seq<char>) -> u128 {
    held(m, USER_VTOKEN_BALANCE, asset, user)
}

/// `m` with the row of `asset` and `user` in `ledger` set to `value`.
pub open spec fn with_row(m: Balances, ledger: &str, asset: Seq<char>, user: Seq<char>, value: u128) -> Balances {
    m.insert((ledger@, asset, user), Some(value))
}

/// What a row counts for: its value, or zero where it is absent.
pub open spec fn quantity(row: Option<u128>) -> u128 {
    match row {
        Some(value) => value,
        None => 0,
    }
}

/// The row after `amount` is added: an absent row starts at `amount`.
/// `None` where the sum does not fit.
pub open spec fn credited(row: Option<u128>, amount: u128) -> Option<u128> {
    if quantity(row) + amount <= u128::MAX {
        Some((quantity(row) + amount) as u128)
    } else {
        None
    }
}

/// The row after `amount` is taken from it. `None` where the row is absent
/// or holds less than `amount`.
pub open spec fn debited(row: Option<u128>, amount: u128) -> Option<u128> {
    match row {
        Some(value) if value >= amount => Some((value - amount) as u128),
        _ => None,
    }
}

/// The Wrapped units that stand for `amount` of Collateral, `None` where
/// the product does not fit.
pub open spec fn wrapped_for(amount: u128) -> Option<u128> {
    if amount * WRAPPED_PER_COLLATERAL <= u128::MAX {
        Some((amount * WRAPPED_PER_COLLATERAL) as u128)
    } else {
        None
    }
}

/// The Collateral that `amount` of Position redeems: the quotient by the
/// ratio, rounded down.
pub open spec fn collateral_for(amount: u128) -> u128 {
    amount / WRAPPED_PER_COLLATERAL
}

/// What `row` counts for.
pub fn balance_of(row: Option<u128>) -> (value: u128)
    ensures
        value == quantity(row),
{
    match row {
        Some(value) => value,
        None => 0,
    }
}

/// Adds `amount` to `row`; `overflow` is the failure where the sum does not
/// fit.
pub fn credit(row: Option<u128>, amount: u128, overflow: ContractError) -> (r: Result<u128, ContractError>)
    ensures
        match credited(row, amount) {
            Some(value) => r == Ok::<u128, ContractError>(value),
            None => r == Err::<u128, ContractError>(overflow),
        },
{
    match row {
        Some(value) => match value.checked_add(amount) {
            Some(sum) => Ok(sum),
            None => Err(overflow),
        },
        None => Ok(amount),
    }
}

/// Takes `amount` from `row`; `missing` is the failure where there is no
/// row, and `Overflow` the failure where the row holds less than `amount`.
pub fn debit(row: Option<u128>, amount: u128, missing: ContractError) -> (r: Result<u128, ContractError>)
    ensures
        match row {
            Some(value) => if value >= amount {
                r == Ok::<u128, ContractError>((value - amount) as u128)
            } else {
                r == Err::<u128, ContractError>(ContractError::Overflow {})
            },
            None => r == Err::<u128, ContractError>(missing),
        },
{
    match row {
        Some(value) => match value.checked_sub(amount) {
            Some(rest) => Ok(rest),
            None => Err(ContractError::Overflow {}),
        },
        None => Err(missing),
    }
}

/// The Wrapped units that stand for `amount` of Collateral.
pub fn wrap(amount: u128) -> (r: Option<u128>)
    ensures
        r == wrapped_for(amount),
{
    amount.checked_mul(WRAPPED_PER_COLLATERAL)
}

/// The Collateral that `amount` of Position redeems.
pub fn redeem(amount: u128) -> (value: u128)
    ensures
        value == collateral_for(amount),
{
    amount / WRAPPED_PER_COLLATERAL
}

/// Reads the row of `asset` and `user` in `ledger`; a row that cannot be
/// read is reported as `failure`.
pub(crate) fn fetch_or(
    store: &Store<'_>,
    ledger: &'static str,
    asset: &str,
    user: &str,
    failure: ContractError,
) -> (r: Result<Option<u128>, ContractError>)
    requires
        is_balance_ledger(ledger@),
        is_storable(asset@),
    ensures
        match r {
            Ok(row) => !unreadable(balances(store), ledger, asset@, user@) && row == stored(
                balances(store),
                ledger,
                asset@,
                user@,
            ),
            Err(e) => unreadable(balances(store), ledger, asset@, user@) && e == failure,
        },
{
    match load_balance(store, ledger, asset, user) {
        Ok(row) => Ok(row),
        Err(_) => Err(failure),
    }
}

/// Reads the row of `asset` and `user` in `ledger`; a row that cannot be
/// read is reported with the storage's own error.
pub(crate) fn fetch(store: &Store<'_>, ledger: &'static str, asset: &str, user: &str) -> (r: Result<
    Option<u128>,
    ContractError,
>)
    requires
        is_balance_ledger(ledger@),
        is_storable(asset@),
    ensures
        match r {
            Ok(row) => !unreadable(balances(store), ledger, asset@, user@) && row == stored(
                balances(store),
                ledger,
                asset@,
                user@,
            ),
            Err(e) => unreadable(balances(store), ledger, asset@, user@) && e@ == ErrorView::Std,
        },
{
    match load_balance(store, ledger, asset, user) {
        Ok(row) => Ok(row),
        Err(e) => Err(ContractError::Std(e)),
    }
}

/// Sets the row of `asset` and `user` in `ledger` to `value`. The answer
/// of the storage is handed on; it is always `Ok`.
pub(crate) fn put(store: &mut Store<'_>, ledger: &'static str, asset: &str, user: &str, value: u128) -> (r:
    Result<(), ContractError>)
    requires
        is_balance_ledger(ledger@),
        is_storable(asset@),
    ensures
        r is Ok,
        balances(final(store)) == with_row(balances(old(store)), ledger, asset@, user@, value),
        order_books(final(store)) == order_books(old(store)),
        listed_tokens(final(store)) == listed_tokens(old(store)),
        contract_owner(final(store)) == contract_owner(old(store)),
{
    match save_balance(store, ledger, asset, user, value) {
        Ok(()) => Ok(()),
        Err(e) => Err(ContractError::Std(e)),
    }
}

} // verus!
