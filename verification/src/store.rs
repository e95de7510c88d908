//! The persistent store under the ledger, and the calls into
//! `cw-storage-plus`, `cw2` and `cosmwasm-std` that read and write it. Verus
//! takes the contracts of these calls on trust.
//!
//! The store is a key-value storage of the host chain. Of its contents the
//! ledger sees four things, each named by a specification function below:
//! the balance rows, the order histories, the list of accepted assets and
//! the owner. The contracts of the calls are stated over these four, and
//! they hold of any storage that returns at a key what was last set there,
//! as `cosmwasm_std::MemoryStorage` does.
//!
//! A read fails where the bytes at the key cannot be parsed. A write can
//! only fail in turning the value into JSON text, and for the values
//! written here (strings, unsigned integers, lists and tuples of them) the
//! serialiser has no step that fails: every write returns `Ok`.

use crate::state::{is_balance_ledger, OrderRow, LEVERAGE_CONTRACT_OWNER, LISTED_TOKEN, ORDER_STATE};
use vstd::prelude::*;
use vstd::utf8::encode_utf8;

verus! {

/// A handle on the storage of the contract. It is built from a
/// `&mut dyn cosmwasm_std::Storage` by naming the field.
#[verifier::external_body]
pub struct Store<'a> {
    pub inner: &'a mut dyn cosmwasm_std::Storage,
}

/// The balance rows: for each ledger namespace, asset and user that has a
/// row, `Some(v)` where the row reads as the quantity `v`, and `None` where
/// its bytes are not a quantity.
pub uninterp spec fn balances(store: &Store<'_>) -> Map<(Seq<char>, Seq<char>, Seq<char>), Option<u128>>;

/// The order histories: for each user that has one, `Some(rows)` where it
/// reads as the rows `rows`, and `None` where its bytes are no list of rows.
pub uninterp spec fn order_books(store: &Store<'_>) -> Map<
    Seq<char>,
    Option<Seq<(Seq<char>, Seq<char>, Seq<char>, u128, u128, u64, u8)>>,
>;

/// The list of accepted assets, or `None` where it was never saved or
/// cannot be read.
pub uninterp spec fn listed_tokens(store: &Store<'_>) -> Option<Seq<Seq<char>>>;

/// The owner, or `None` where none was saved or it cannot be read.
pub uninterp spec fn contract_owner(store: &Store<'_>) -> Option<Seq<char>>;

/// An asset identifier can be part of a balance key: its UTF-8 form has at
/// most 65535 bytes, the longest that the key's length prefix can express.
pub open spec fn is_storable(asset: Seq<char>) -> bool {
    encode_utf8(asset).len() <= 0xFFFF
}

/// The views of the strings in `tokens`, in order.
pub open spec fn texts(tokens: Seq<String>) -> Seq<Seq<char>> {
    Seq::new(tokens.len(), |i: int| tokens[i]@)
}

/// Whether `asset` can be part of a balance key.
pub fn can_store(asset: &str) -> (b: bool)
    ensures
        b == is_storable(asset@),
{
    asset.as_bytes().len() <= 0xFFFF
}

/// `cw_storage_plus::Map::may_load` on the balance ledger `ledger`, at the
/// key `(asset, user)`. The call reads the row and parses it: it returns
/// `Ok(None)` where there is no row, `Ok(Some(v))` where the row reads as
/// `v`, and an error where the row cannot be parsed. Building the key
/// panics on an asset of more than 65535 bytes, which `requires` excludes.
#[verifier::external_body]
pub(crate) fn load_balance(store: &Store<'_>, ledger: &str, asset: &str, user: &str) -> (r: Result<
    Option<u128>,
    cosmwasm_std::StdError,
>)
    requires
        is_balance_ledger(ledger@),
        is_storable(asset@),
    ensures
        match r {
            Ok(Some(v)) => balances(store).contains_pair((ledger@, asset@, user@), Some(v)),
            Ok(None) => !balances(store).dom().contains((ledger@, asset@, user@)),
            Err(_) => balances(store).contains_pair((ledger@, asset@, user@), None),
        },
{
    let rows: cw_storage_plus::Map<(&cosmwasm_std::Addr, &cosmwasm_std::Addr), cosmwasm_std::Uint128> =
        cw_storage_plus::Map::new(ledger);
    let (asset, user) = (cosmwasm_std::Addr::unchecked(asset), cosmwasm_std::Addr::unchecked(user));
    rows.may_load(&*store.inner, (&asset, &user)).map(|row| row.map(|v| v.u128()))
}

/// `cw_storage_plus::Map::save` on the balance ledger `ledger`, at the key
/// `(asset, user)`. The call serialises `value` and sets the row; it
/// touches no other row and nothing outside the balance ledgers. It can
/// only fail in serialising, and a quantity is written as its decimal
/// digits in quotes, which cannot fail: the call returns `Ok`. Building the
/// key panics on an asset of more than 65535 bytes, which `requires`
/// excludes.
#[verifier::external_body]
pub(crate) fn save_balance(store: &mut Store<'_>, ledger: &str, asset: &str, user: &str, value: u128) -> (r:
    Result<(), cosmwasm_std::StdError>)
    requires
        is_balance_ledger(ledger@),
        is_storable(asset@),
    ensures
        r is Ok,
        balances(final(store)) == balances(old(store)).insert((ledger@, asset@, user@), Some(value)),
        order_books(final(store)) == order_books(old(store)),
        listed_tokens(final(store)) == listed_tokens(old(store)),
        contract_owner(final(store)) == contract_owner(old(store)),
{
    let rows: cw_storage_plus::Map<(&cosmwasm_std::Addr, &cosmwasm_std::Addr), cosmwasm_std::Uint128> =
        cw_storage_plus::Map::new(ledger);
    let (asset, user) = (cosmwasm_std::Addr::unchecked(asset), cosmwasm_std::Addr::unchecked(user));
    rows.save(&mut *store.inner, (&asset, &user), &cosmwasm_std::Uint128::new(value))
}

/// `cw_storage_plus::Map::may_load` on the order histories, at the key
/// `user`: `Ok(None)` where the user has no history, `Ok(Some(rows))` where
/// it reads as `rows`, and an error where it cannot be parsed.
#[verifier::external_body]
pub(crate) fn load_orders(store: &Store<'_>, namespace: &str, user: &str) -> (r: Result<
    Option<Vec<OrderRow>>,
    cosmwasm_std::StdError,
>)
    requires
        namespace@ == ORDER_STATE@,
    ensures
        match r {
            Ok(Some(rows)) => order_books(store).contains_pair(user@, Some(rows.deep_view())),
            Ok(None) => !order_books(store).dom().contains(user@),
            Err(_) => order_books(store).contains_pair(user@, None),
        },
{
    let books: cw_storage_plus::Map<&cosmwasm_std::Addr, Vec<OrderRow>> = cw_storage_plus::Map::new(
        namespace,
    );
    books.may_load(&*store.inner, &cosmwasm_std::Addr::unchecked(user))
}

/// `cw_storage_plus::Map::save` on the order histories, at the key `user`.
/// The call serialises `rows` and sets the history of `user`; it touches
/// no other history and nothing outside the histories. It can only fail in
/// serialising, and a list of tuples of strings and unsigned integers is
/// written without a step that can fail: the call returns `Ok`.
#[verifier::external_body]
pub(crate) fn save_orders(store: &mut Store<'_>, namespace: &str, user: &str, rows: &Vec<OrderRow>) -> (r:
    Result<(), cosmwasm_std::StdError>)
    requires
        namespace@ == ORDER_STATE@,
    ensures
        r is Ok,
        order_books(final(store)) == order_books(old(store)).insert(user@, Some(rows.deep_view())),
        balances(final(store)) == balances(old(store)),
        listed_tokens(final(store)) == listed_tokens(old(store)),
        contract_owner(final(store)) == contract_owner(old(store)),
{
    let books: cw_storage_plus::Map<&cosmwasm_std::Addr, Vec<OrderRow>> = cw_storage_plus::Map::new(
        namespace,
    );
    books.save(&mut *store.inner, &cosmwasm_std::Addr::unchecked(user), rows)
}

/// `cw_storage_plus::Item::load` on the list of accepted assets: the list
/// where one is stored and can be parsed, an error otherwise.
#[verifier::external_body]
pub(crate) fn load_listed_tokens(store: &Store<'_>, key: &str) -> (r: Result<
    Vec<String>,
    cosmwasm_std::StdError,
>)
    requires
        key@ == LISTED_TOKEN@,
    ensures
        match r {
            Ok(tokens) => listed_tokens(store) == Some(texts(tokens@)),
            Err(_) => listed_tokens(store) is None,
        },
{
    let list: cw_storage_plus::Item<Vec<String>> = cw_storage_plus::Item::new(key);
    list.load(&*store.inner)
}

/// `cw_storage_plus::Item::save` on the list of accepted assets. The call
/// serialises `tokens` and replaces the list; it touches nothing else. It
/// can only fail in serialising, and a list of strings is written without
/// a step that can fail: the call returns `Ok`.
#[verifier::external_body]
pub(crate) fn save_listed_tokens(store: &mut Store<'_>, key: &str, tokens: &Vec<String>) -> (r: Result<
    (),
    cosmwasm_std::StdError,
>)
    requires
        key@ == LISTED_TOKEN@,
    ensures
        r is Ok,
        listed_tokens(final(store)) == Some(texts(tokens@)),
        balances(final(store)) == balances(old(store)),
        order_books(final(store)) == order_books(old(store)),
        contract_owner(final(store)) == contract_owner(old(store)),
{
    let list: cw_storage_plus::Item<Vec<String>> = cw_storage_plus::Item::new(key);
    list.save(&mut *store.inner, tokens)
}

/// `cw_storage_plus::Item::load` on the owner: the owner where one is
/// stored and can be parsed, an error otherwise.
#[verifier::external_body]
pub(crate) fn load_owner(store: &Store<'_>, key: &str) -> (r: Result<String, cosmwasm_std::StdError>)
    requires
        key@ == LEVERAGE_CONTRACT_OWNER@,
    ensures
        match r {
            Ok(owner) => contract_owner(store) == Some(owner@),
            Err(_) => contract_owner(store) is None,
        },
{
    let owner: cw_storage_plus::Item<cosmwasm_std::Addr> = cw_storage_plus::Item::new(key);
    owner.load(&*store.inner).map(|addr| addr.into_string())
}

/// `cw_storage_plus::Item::save` on the owner. The call serialises `owner`
/// and replaces the owner; it touches nothing else. It can only fail in
/// serialising, and a string is written without a step that can fail: the
/// call returns `Ok`.
#[verifier::external_body]
pub(crate) fn save_owner(store: &mut Store<'_>, key: &str, owner: &str) -> (r: Result<
    (),
    cosmwasm_std::StdError,
>)
    requires
        key@ == LEVERAGE_CONTRACT_OWNER@,
    ensures
        r is Ok,
        contract_owner(final(store)) == Some(owner@),
        balances(final(store)) == balances(old(store)),
        order_books(final(store)) == order_books(old(store)),
        listed_tokens(final(store)) == listed_tokens(old(store)),
{
    let item: cw_storage_plus::Item<cosmwasm_std::Addr> = cw_storage_plus::Item::new(key);
    item.save(&mut *store.inner, &cosmwasm_std::Addr::unchecked(owner))
}

/// `cw2::set_contract_version`: records the name and version of the
/// contract under a key of its own, `contract_info`, and so changes none
/// of what the ledger keeps. It is an `Item::save` of a record of two
/// strings, which is written without a step that can fail: the call
/// returns `Ok`.
#[verifier::external_body]
pub(crate) fn set_contract_version(store: &mut Store<'_>, name: &str, version: &str) -> (r: Result<
    (),
    cosmwasm_std::StdError,
>)
    ensures
        r is Ok,
        balances(final(store)) == balances(old(store)),
        order_books(final(store)) == order_books(old(store)),
        listed_tokens(final(store)) == listed_tokens(old(store)),
        contract_owner(final(store)) == contract_owner(old(store)),
{
    cw2::set_contract_version(&mut *store.inner, name, version)
}

/// Two stores hold the same balances, histories, list and owner.
pub open spec fn same_contents(a: &Store<'_>, b: &Store<'_>) -> bool {
    &&& balances(a) == balances(b)
    &&& order_books(a) == order_books(b)
    &&& listed_tokens(a) == listed_tokens(b)
    &&& contract_owner(a) == contract_owner(b)
}

} // verus!
