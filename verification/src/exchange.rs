//! Exchange: an executed order swaps Position between two assets of one
//! user and is recorded in that user's history.
//!
//! The amounts are the caller's: no rate is checked, and the caller need
//! not be the user whose Position moves.

use crate::balance::{
    balance_of, credit, credited, fetch, fetch_or, held, position, put, stored, unreadable,
    with_row, Balances,
};
use crate::chain::{Env, MessageInfo, Response, ResponseView};
use crate::error::{plain, refused, ContractError, ErrorView};
use crate::msg::OrderExecute;
use crate::state::{OrderRecord, OrderRow, OrderState, Status, ORDER_STATE, USER_VTOKEN_BALANCE};
use crate::store::{
    balances, contract_owner, is_storable, listed_tokens, load_orders, order_books, save_orders,
    Store,
};
use vstd::prelude::*;

verus! {

/// The order histories of a store: see `crate::store::order_books`.
pub type OrderBooks = Map<Seq<char>, Option<Seq<OrderRecord>>>;

/// The record of `order`, executed at `time`.
pub open spec fn filled(order: OrderExecute, time: u64) -> OrderRecord {
    (
        order.order_id@,
        order.token_in@,
        order.token_out@,
        order.amount_in,
        order.amount_out,
        time,
        Status::Fullfiled.spec_code(),
    )
}

/// The history of `user`, empty where there is none.
pub open spec fn history(books: OrderBooks, user: Seq<char>) -> Seq<OrderRecord> {
    if books.dom().contains(user) && books[user] is Some {
        books[user]->0
    } else {
        seq![]
    }
}

/// What the execution of `order` at `time` comes to on the balances `m`
/// and the histories `books`: the new Position row of the asset bought,
/// the new Position row of the asset sold, and the user's new history; or
/// the reason for which it is refused. The reasons are tried in the order
/// written.
///
/// The asset bought is credited first. Where it is also the asset sold,
/// the amount sold is taken from the row so credited.
pub open spec fn exchange_verdict(m: Balances, books: OrderBooks, order: OrderExecute, time: u64) -> Result<
    (u128, u128, Seq<OrderRecord>),
    ErrorView,
> {
    let user = order.user_address@;
    let bought = credited(stored(m, USER_VTOKEN_BALANCE, order.token_out@, user), order.amount_out);
    if unreadable(m, USER_VTOKEN_BALANCE, order.token_in@, user) {
        Err(plain(ContractError::UnableToFetchWrapBorrowToken {}))
    } else if held(m, USER_VTOKEN_BALANCE, order.token_in@, user) < order.amount_in {
        Err(plain(ContractError::InsufficientBalance {}))
    } else if unreadable(m, USER_VTOKEN_BALANCE, order.token_out@, user) {
        Err(ErrorView::Std)
    } else if bought is None {
        Err(plain(ContractError::Overflow {}))
    } else if books.contains_pair(user, None) {
        Err(ErrorView::Std)
    } else {
        let before_sale = if order.token_in@ == order.token_out@ {
            bought->0
        } else {
            held(m, USER_VTOKEN_BALANCE, order.token_in@, user)
        };
        Ok(
            (
                bought->0,
                (before_sale - order.amount_in) as u128,
                history(books, user).push(filled(order, time)),
            ),
        )
    }
}

/// What `execute_order` does to the store and returns.
///
/// A refusal changes nothing. An order that is not refused goes through:
/// it writes the Position row of the asset bought, then that of the asset
/// sold, and the history.
pub open spec fn execute_order_post(
    before: &Store<'_>,
    after: &Store<'_>,
    env: Env,
    order: OrderExecute,
    r: Result<Response, ContractError>,
) -> bool {
    let m = balances(before);
    let books = order_books(before);
    let user = order.user_address@;
    &&& listed_tokens(after) == listed_tokens(before)
    &&& contract_owner(after) == contract_owner(before)
    &&& match exchange_verdict(m, books, order, env.time) {
        Err(why) => refused(r, why) && balances(after) == m && order_books(after) == books,
        Ok((bought, sold, rows)) => {
            &&& r matches Ok(response)
            &&& response@ == (ResponseView {
                attributes: seq![("method"@, "execute_order"@)],
                messages: seq![],
            })
            &&& balances(after) == exchanged_books(m, order, (bought, sold))
            &&& order_books(after) == books.insert(user, Some(rows))
        },
    }
}

/// Carries out `order` for `order.user_address`: credits the Position of
/// the asset bought, debits the Position of the asset sold, and appends a
/// `Fullfiled` record, stamped with the block time, to the user's history.
pub fn execute_order(store: &mut Store<'_>, env: Env, _info: MessageInfo, order: OrderExecute) -> (r: Result<
    Response,
    ContractError,
>)
    requires
        is_storable(order.token_in@),
        is_storable(order.token_out@),
    ensures
        execute_order_post(old(store), final(store), env, order, r),
{
    let user = order.user_address.as_str();
    let sell = order.token_in.as_str();
    let buy = order.token_out.as_str();

    let sold = fetch_or(
        store,
        USER_VTOKEN_BALANCE,
        sell,
        user,
        ContractError::UnableToFetchWrapBorrowToken {},
    )?;
    if balance_of(sold) < order.amount_in {
        return Err(ContractError::InsufficientBalance {});
    }
    let bought = fetch(store, USER_VTOKEN_BALANCE, buy, user)?;
    let new_bought = credit(bought, order.amount_out, ContractError::Overflow {})?;
    let before_sale = if order.token_in == order.token_out {
        new_bought
    } else {
        balance_of(sold)
    };
    let new_sold = before_sale - order.amount_in;
    let mut rows: Vec<OrderRow> = match load_orders(store, ORDER_STATE, user) {
        Ok(Some(rows)) => rows,
        Ok(None) => Vec::new(),
        Err(e) => {
            return Err(ContractError::Std(e));
        },
    };
    let record = OrderState {
        order_id: order.order_id.clone(),
        sell_token: order.token_in.clone(),
        buy_token: order.token_out.clone(),
        sell_token_amount: order.amount_in,
        buy_token_amount: order.amount_out,
        time: env.time,
        status: Status::Fullfiled,
    };
    let ghost earlier = rows.deep_view();
    rows.push(record.to_row());
    assert(rows.deep_view() =~= earlier.push(filled(order, env.time)));
    assert(earlier =~= history(order_books(store), user@));

    put(store, USER_VTOKEN_BALANCE, buy, user, new_bought)?;
    put(store, USER_VTOKEN_BALANCE, sell, user, new_sold)?;
    match save_orders(store, ORDER_STATE, user, &rows) {
        Ok(()) => {},
        Err(e) => {
            return Err(ContractError::Std(e));
        },
    }
    let response = Response::new().add_attribute("method", "execute_order");
    assert(response@.attributes =~= seq![("method"@, "execute_order"@)]);
    Ok(response)
}

/// The balances after an exchange that wrote the rows `rows`: first that
/// of the asset bought, then that of the asset sold.
pub open spec fn exchanged_books(m: Balances, order: OrderExecute, rows: (u128, u128)) -> Balances {
    with_row(
        with_row(m, USER_VTOKEN_BALANCE, order.token_out@, order.user_address@, rows.0),
        USER_VTOKEN_BALANCE,
        order.token_in@,
        order.user_address@,
        rows.1,
    )
}

/// An order cannot sell Position that is not there: where the amount to
/// sell exceeds the Position in the asset sold, `execute_order` refuses
/// for that reason, whatever it would buy, and changes nothing.
pub proof fn lemma_exchange_needs_position(
    before: &Store<'_>,
    after: &Store<'_>,
    env: Env,
    order: OrderExecute,
    r: Result<Response, ContractError>,
)
    requires
        execute_order_post(before, after, env, order, r),
        !unreadable(balances(before), USER_VTOKEN_BALANCE, order.token_in@, order.user_address@),
        order.amount_in > position(balances(before), order.token_in@, order.user_address@),
    ensures
        refused(r, plain(ContractError::InsufficientBalance {})),
        balances(after) == balances(before),
        order_books(after) == order_books(before),
{
}

/// An order between two different assets that goes through moves exactly
/// the amounts it names: the Position sold has fallen by `amount_in`, the
/// Position bought has risen by `amount_out`, and the history is longer by
/// one record, that of the order, which says `Fullfiled`.
pub proof fn lemma_exchange_moves_the_amounts(
    before: &Store<'_>,
    after: &Store<'_>,
    env: Env,
    order: OrderExecute,
    r: Result<Response, ContractError>,
)
    requires
        execute_order_post(before, after, env, order, r),
        r is Ok,
        order.token_in@ != order.token_out@,
    ensures
        ({
            let user = order.user_address@;
            &&& position(balances(after), order.token_out@, user) == position(
                balances(before),
                order.token_out@,
                user,
            ) + order.amount_out
            &&& position(balances(after), order.token_in@, user) == position(
                balances(before),
                order.token_in@,
                user,
            ) - order.amount_in
            &&& history(order_books(after), user) == history(order_books(before), user).push(
                filled(order, env.time),
            )
            &&& history(order_books(after), user).last().6 == Status::Fullfiled.spec_code()
        }),
{
}

/// An order goes through exactly when the Position sold holds the amount
/// to sell, the Position bought stays within `u128`, and the two rows and
/// the user's history can be read.
pub proof fn lemma_exchange_goes_through(m: Balances, books: OrderBooks, order: OrderExecute, time: u64)
    ensures
        exchange_verdict(m, books, order, time) is Ok <==> {
            let user = order.user_address@;
            &&& !unreadable(m, USER_VTOKEN_BALANCE, order.token_in@, user)
            &&& order.amount_in <= position(m, order.token_in@, user)
            &&& !unreadable(m, USER_VTOKEN_BALANCE, order.token_out@, user)
            &&& position(m, order.token_out@, user) + order.amount_out <= u128::MAX
            &&& !books.contains_pair(user, None)
        },
{
}

} // verus!
