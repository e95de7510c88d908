//! What the ledger keeps: the names of its seven collections and the
//! record of an executed order.

use vstd::prelude::*;

verus! {

/// Key of the identity that may list assets.
pub const LEVERAGE_CONTRACT_OWNER: &'static str = "leverage_contract_owner";

/// Key of the list of assets accepted through the fungible deposit path.
pub const LISTED_TOKEN: &'static str = "listed_chain";

/// Namespace of the Collateral ledger.
pub const TOKEN_BALANCE: &'static str = "user token colateral balance";

/// Namespace of the Wrapped ledger.
pub const WRAPPED_TOKEN_BALANCE: &'static str = "wrapped token balance";

/// Namespace of the Borrow ledger.
pub const WRAPPED_TOKEN_BORROW_BALANCE: &'static str = "wrapped token borrow balance";

/// Namespace of the Position ledger.
pub const USER_VTOKEN_BALANCE: &'static str = "user vtoken balance";

/// Namespace of the per-user order history.
pub const ORDER_STATE: &'static str = "order data";

/// `ns` names one of the four balance ledgers.
pub open spec fn is_balance_ledger(ns: Seq<char>) -> bool {
    ||| ns == TOKEN_BALANCE@
    ||| ns == WRAPPED_TOKEN_BALANCE@
    ||| ns == WRAPPED_TOKEN_BORROW_BALANCE@
    ||| ns == USER_VTOKEN_BALANCE@
}

/// The four balance ledgers have four different names.
pub proof fn lemma_ledgers_distinct()
    ensures
        TOKEN_BALANCE@ != WRAPPED_TOKEN_BALANCE@,
        TOKEN_BALANCE@ != WRAPPED_TOKEN_BORROW_BALANCE@,
        TOKEN_BALANCE@ != USER_VTOKEN_BALANCE@,
        WRAPPED_TOKEN_BALANCE@ != WRAPPED_TOKEN_BORROW_BALANCE@,
        WRAPPED_TOKEN_BALANCE@ != USER_VTOKEN_BALANCE@,
        WRAPPED_TOKEN_BORROW_BALANCE@ != USER_VTOKEN_BALANCE@,
{
    reveal_strlit("user token colateral balance");
    reveal_strlit("wrapped token balance");
    reveal_strlit("wrapped token borrow balance");
    reveal_strlit("user vtoken balance");
    assert(TOKEN_BALANCE@.len() == 28 && TOKEN_BALANCE@[0] == 'u');
    assert(WRAPPED_TOKEN_BALANCE@.len() == 21);
    assert(WRAPPED_TOKEN_BORROW_BALANCE@.len() == 28 && WRAPPED_TOKEN_BORROW_BALANCE@[0] == 'w');
    assert(USER_VTOKEN_BALANCE@.len() == 19);
}

/// How far an order has come. The exchange path only ever records
/// `Fullfiled`.
#[derive(Clone, Copy, Debug, PartialEq, Eq, Structural)]
pub enum Status {
    Pending,
    Fullfiled,
    Rejected,
}

impl Status {
    /// The number under which a status is stored.
    pub open spec fn spec_code(self) -> u8 {
        match self {
            Status::Pending => 0,
            Status::Fullfiled => 1,
            Status::Rejected => 2,
        }
    }

    #[verifier::when_used_as_spec(spec_code)]
    pub fn code(self) -> (c: u8)
        ensures
            c == self.spec_code(),
    {
        match self {
            Status::Pending => 0,
            Status::Fullfiled => 1,
            Status::Rejected => 2,
        }
    }

    /// The status stored under `c`, if `c` is the code of one.
    pub fn from_code(c: u8) -> (s: Option<Status>)
        ensures
            match s {
                Some(status) => status.spec_code() == c,
                None => c > 2,
            },
    {
        if c == 0 {
            Some(Status::Pending)
        } else if c == 1 {
            Some(Status::Fullfiled)
        } else if c == 2 {
            Some(Status::Rejected)
        } else {
            None
        }
    }
}

/// An order record as it lies in storage: identifier, sell asset, buy
/// asset, sell amount, buy amount, time in nanoseconds, status code.
pub type OrderRow = (String, String, String, u128, u128, u64, u8);

/// The mathematical value of an `OrderRow`.
pub type OrderRecord = (Seq<char>, Seq<char>, Seq<char>, u128, u128, u64, u8);

/// One executed exchange. A record is written once and never changed.
#[derive(Clone, Debug, PartialEq, Eq)]
pub struct OrderState {
    pub order_id: String,
    pub sell_token: String,
    pub buy_token: String,
    pub sell_token_amount: u128,
    pub buy_token_amount: u128,
    pub time: u64,
    pub status: Status,
}

impl View for OrderState {
    type V = OrderRecord;

    open spec fn view(&self) -> OrderRecord {
        (
            self.order_id@,
            self.sell_token@,
            self.buy_token@,
            self.sell_token_amount,
            self.buy_token_amount,
            self.time,
            self.status.spec_code(),
        )
    }
}

impl OrderState {
    /// The row under which this record is stored.
    pub fn to_row(&self) -> (row: OrderRow)
        ensures
            row.deep_view() == self@,
    {
        (
            self.order_id.clone(),
            self.sell_token.clone(),
            self.buy_token.clone(),
            self.sell_token_amount,
            self.buy_token_amount,
            self.time,
            self.status.code(),
        )
    }

    /// The record that `row` stores, unless its status code is unknown.
    pub fn from_row(row: &OrderRow) -> (order: Option<OrderState>)
        ensures
            match order {
                Some(o) => o@ == row.deep_view(),
                None => row.6 > 2,
            },
    {
        match Status::from_code(row.6) {
            Some(status) => Some(
                OrderState {
                    order_id: row.0.clone(),
                    sell_token: row.1.clone(),
                    buy_token: row.2.clone(),
                    sell_token_amount: row.3,
                    buy_token_amount: row.4,
                    time: row.5,
                    status,
                },
            ),
            None => None,
        }
    }
}

/// The records in `orders`, in order.
pub open spec fn records(orders: Seq<OrderState>) -> Seq<OrderRecord> {
    Seq::new(orders.len(), |i: int| orders[i]@)
}

/// Every row in `rows` carries the code of a status.
pub open spec fn all_decodable(rows: Seq<OrderRecord>) -> bool {
    forall|i: int| 0 <= i < rows.len() ==> (#[trigger] rows[i]).6 <= 2
}

/// The records that `rows` store, in order; `None` if one of them carries
/// an unknown status code.
pub fn orders_from_rows(rows: &Vec<OrderRow>) -> (orders: Option<Vec<OrderState>>)
    ensures
        match orders {
            Some(v) => records(v@) == rows.deep_view(),
            None => !all_decodable(rows.deep_view()),
        },
{
    let mut out: Vec<OrderState> = Vec::new();
    let mut i: usize = 0;
    while i < rows.len()
        invariant
            i <= rows.len(),
            out.len() == i,
            forall|j: int| 0 <= j < i ==> (#[trigger] out@[j])@ == rows@[j].deep_view(),
        decreases rows.len() - i,
    {
        match OrderState::from_row(&rows[i]) {
            Some(order) => {
                out.push(order);
            },
            None => {
                assert(rows.deep_view()[i as int].6 > 2);
                return None;
            },
        }
        i += 1;
    }
    assert(records(out@) =~= rows.deep_view());
    Some(out)
}

} // verus!
