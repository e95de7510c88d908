//! The ledger as a whole: the state that the operations share, the step
//! that each call takes on it, and what holds after any number of steps.

use crate::balance::Balances;
use crate::borrow::{borrow_verdict, borrowed_books};
use crate::burn::{burn_verdict, redeemed_books};
use crate::chain::{Env, MessageInfo, Response};
use crate::contract::execute_post;
use crate::deposit::{accepts, deposit_verdict, deposited_books, FUNGIBLE_ASSET};
use crate::error::ContractError;
use crate::exchange::{exchange_verdict, exchanged_books, OrderBooks};
use crate::msg::ExecuteMsg;
use crate::query::balance_answer;
use crate::repay::{repaid_books, repay_verdict};
use crate::store::{balances, contract_owner, listed_tokens, order_books, Store};
use crate::withdraw::{withdraw_verdict, withdrawn_books};
use vstd::prelude::*;

verus! {

/// All that the ledger keeps.
pub ghost struct Ledger {
    pub balances: Balances,
    pub books: OrderBooks,
    pub listed: Option<Seq<Seq<char>>>,
    pub owner: Option<Seq<char>>,
}

/// One call of `execute`.
pub ghost struct Call {
    pub env: Env,
    pub info: MessageInfo,
    pub msg: ExecuteMsg,
}

/// What a store keeps.
pub open spec fn ledger_of(store: &Store<'_>) -> Ledger {
    Ledger {
        balances: balances(store),
        books: order_books(store),
        listed: listed_tokens(store),
        owner: contract_owner(store),
    }
}

/// The ledger with the balances `m`.
pub open spec fn with_balances(l: Ledger, m: Balances) -> Ledger {
    Ledger { balances: m, ..l }
}

/// The ledger after `call`: what the operation that serves the call makes
/// of it where it goes through, and the ledger as it was where the call is
/// refused.
pub open spec fn step(l: Ledger, call: Call) -> Ledger {
    let m = l.balances;
    let sender = call.info.sender@;
    match call.msg {
        ExecuteMsg::ListTokenOnLeverage { token_address } => if l.owner == Some(sender)
            && l.listed is Some {
            Ledger { listed: Some(l.listed->0.push(token_address@)), ..l }
        } else {
            l
        },
        ExecuteMsg::Receive(msg) => match deposit_verdict(m, FUNGIBLE_ASSET@, msg.sender@, msg.amount) {
            Ok(rows) if accepts(l.listed, sender) => with_balances(
                l,
                deposited_books(m, FUNGIBLE_ASSET@, msg.sender@, rows),
            ),
            _ => l,
        },
        ExecuteMsg::DepositNative { token_address } => if call.info.funds@.len() > 0
            && call.info.funds@[0].amount != 0 {
            match deposit_verdict(m, token_address@, sender, call.info.funds@[0].amount) {
                Ok(rows) => with_balances(l, deposited_books(m, token_address@, sender, rows)),
                Err(_) => l,
            }
        } else {
            l
        },
        ExecuteMsg::Borrow(data) => match borrow_verdict(
            m,
            data.token_address@,
            sender,
            data.token_amount,
        ) {
            Ok(rows) => with_balances(l, borrowed_books(m, data.token_address@, sender, rows)),
            Err(_) => l,
        },
        ExecuteMsg::Repay(data) => match repay_verdict(
            m,
            data.token_address@,
            sender,
            data.token_amount,
        ) {
            Ok(rows) => with_balances(l, repaid_books(m, data.token_address@, sender, rows)),
            Err(_) => l,
        },
        ExecuteMsg::Burn(data) => match burn_verdict(
            m,
            data.token_address@,
            sender,
            data.token_amount,
        ) {
            Ok(rows) => with_balances(l, redeemed_books(m, data.token_address@, sender, rows)),
            Err(_) => l,
        },
        ExecuteMsg::ExecuteOrder(order) => match exchange_verdict(m, l.books, order, call.env.time) {
            Ok((bought, sold, rows)) => Ledger {
                balances: exchanged_books(m, order, (bought, sold)),
                books: l.books.insert(order.user_address@, Some(rows)),
                ..l
            },
            Err(_) => l,
        },
        ExecuteMsg::WithdrawToken(data) => match withdraw_verdict(m, sender, data) {
            Ok((collateral, wrapped, _)) => with_balances(
                l,
                withdrawn_books(m, data.token_address@, sender, (collateral, wrapped)),
            ),
            Err(_) => l,
        },
    }
}

/// The ledger after the calls `calls`, one after the other.
pub open spec fn run(l: Ledger, calls: Seq<Call>) -> Ledger
    decreases calls.len(),
{
    if calls.len() == 0 {
        l
    } else {
        step(run(l, calls.drop_last()), calls.last())
    }
}

/// Every balance row and every history of the ledger can be read.
pub open spec fn readable(l: Ledger) -> bool {
    &&& forall|key: (Seq<char>, Seq<char>, Seq<char>)| #[trigger]
        l.balances.dom().contains(key) ==> l.balances[key] is Some
    &&& forall|user: Seq<char>| #[trigger] l.books.dom().contains(user) ==> l.books[user] is Some
}

/// `execute` takes the step: whatever it returns, the ledger after a call
/// is the ledger that `step` gives, and a call that is refused has changed
/// nothing.
pub proof fn lemma_execute_steps(
    before: &Store<'_>,
    after: &Store<'_>,
    call: Call,
    r: Result<Response, ContractError>,
)
    requires
        execute_post(before, after, call.env, call.info, call.msg, r),
    ensures
        ledger_of(after) == step(ledger_of(before), call),
        r is Err ==> ledger_of(after) == ledger_of(before),
{
}

/// A step writes only rows and histories that can be read.
pub proof fn lemma_step_keeps_readable(l: Ledger, call: Call)
    requires
        readable(l),
    ensures
        readable(step(l, call)),
{
}

/// However many calls are served, every row and history of a ledger that
/// could be read before can be read after.
pub proof fn lemma_run_keeps_readable(l: Ledger, calls: Seq<Call>)
    requires
        readable(l),
    ensures
        readable(run(l, calls)),
    decreases calls.len(),
{
    if calls.len() > 0 {
        lemma_run_keeps_readable(l, calls.drop_last());
        lemma_step_keeps_readable(run(l, calls.drop_last()), calls.last());
    }
}

/// No balance is ever negative. On a ledger whose rows can be read, after
/// any sequence of calls, every balance query is answered, and with a
/// quantity of zero or more.
pub proof fn lemma_no_balance_below_zero(
    l: Ledger,
    calls: Seq<Call>,
    ledger: &str,
    asset: Seq<char>,
    user: Seq<char>,
    failure: ContractError,
)
    requires
        readable(l),
    ensures
        balance_answer(run(l, calls).balances, ledger, asset, user, failure) matches Ok(value)
            && value >= 0,
{
    lemma_run_keeps_readable(l, calls);
}

} // verus!
