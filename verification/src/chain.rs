//! The plain values that pass between the host chain and the ledger: who
//! calls, with what funds, at what time, and what the ledger answers.

use vstd::prelude::*;

verus! {

/// An amount of one native denomination.
#[derive(Clone, Debug, PartialEq, Eq)]
pub struct Coin {
    pub denom: String,
    pub amount: u128,
}

/// The caller of an operation and the funds attached to the call.
#[derive(Clone, Debug, PartialEq, Eq)]
pub struct MessageInfo {
    pub sender: String,
    pub funds: Vec<Coin>,
}

/// The block in which the call runs; `time` is in nanoseconds.
#[derive(Clone, Copy, Debug, PartialEq, Eq)]
pub struct Env {
    pub time: u64,
}

/// A key and a value reported with a successful operation.
#[derive(Clone, Debug, PartialEq, Eq)]
pub struct Attribute {
    pub key: String,
    pub value: String,
}

/// A request to move an amount out of the contract: native coins that the
/// bank is to send to `to_address`, or a message `msg` that asks the token
/// contract at `contract_addr` for a transfer.
#[derive(Clone, Debug, PartialEq, Eq)]
pub enum Transfer {
    Native { to_address: String, denom: String, amount: u128 },
    Fungible { contract_addr: String, msg: Vec<u8> },
}

pub ghost enum TransferView {
    Native { to_address: Seq<char>, denom: Seq<char>, amount: u128 },
    Fungible { contract_addr: Seq<char>, msg: Seq<u8> },
}

/// The JSON text by which a token contract is asked to transfer `amount`
/// of its tokens to `recipient`.
pub uninterp spec fn transfer_json(recipient: Seq<char>, amount: u128) -> Seq<u8>;

/// `cosmwasm_std::to_json_binary` on a `cw20::Cw20ExecuteMsg::Transfer`:
/// the bytes are the JSON text of that message, which depends on the
/// recipient and the amount alone. The message is a record of a string and
/// a quantity, which is written without a step that can fail: the call
/// returns `Ok`.
#[verifier::external_body]
pub(crate) fn encode_transfer(recipient: &str, amount: u128) -> (r: Result<Vec<u8>, cosmwasm_std::StdError>)
    ensures
        r is Ok,
        r matches Ok(bytes) ==> bytes@ == transfer_json(recipient@, amount),
{
    cosmwasm_std::to_json_binary(
        &cw20::Cw20ExecuteMsg::Transfer {
            recipient: recipient.to_string(),
            amount: cosmwasm_std::Uint128::new(amount),
        },
    ).map(|binary| binary.to_vec())
}

impl View for Transfer {
    type V = TransferView;

    open spec fn view(&self) -> TransferView {
        match *self {
            Transfer::Native { to_address, denom, amount } => TransferView::Native {
                to_address: to_address@,
                denom: denom@,
                amount,
            },
            Transfer::Fungible { contract_addr, msg } => TransferView::Fungible {
                contract_addr: contract_addr@,
                msg: msg@,
            },
        }
    }
}

/// What a successful operation hands back: attributes that describe it and
/// the transfers it asks the chain to carry out.
#[derive(Clone, Debug, PartialEq, Eq)]
pub struct Response {
    pub attributes: Vec<Attribute>,
    pub messages: Vec<Transfer>,
}

pub ghost struct ResponseView {
    pub attributes: Seq<(Seq<char>, Seq<char>)>,
    pub messages: Seq<TransferView>,
}

impl View for Response {
    type V = ResponseView;

    open spec fn view(&self) -> ResponseView {
        ResponseView {
            attributes: Seq::new(
                self.attributes@.len(),
                |i: int| (self.attributes@[i].key@, self.attributes@[i].value@),
            ),
            messages: Seq::new(self.messages@.len(), |i: int| self.messages@[i]@),
        }
    }
}

impl Response {
    /// A response without attributes or transfers.
    pub fn new() -> (r: Response)
        ensures
            r@ == (ResponseView { attributes: seq![], messages: seq![] }),
    {
        let r = Response { attributes: Vec::new(), messages: Vec::new() };
        assert(r@.attributes =~= seq![]);
        assert(r@.messages =~= seq![]);
        r
    }

    /// The same response with one more attribute at the end.
    pub fn add_attribute(self, key: &str, value: &str) -> (r: Response)
        ensures
            r@.attributes == self@.attributes.push((key@, value@)),
            r@.messages == self@.messages,
    {
        let mut r = self;
        r.attributes.push(Attribute { key: key.to_owned(), value: value.to_owned() });
        assert(r@.attributes =~= self@.attributes.push((key@, value@)));
        assert(r@.messages =~= self@.messages);
        r
    }

    /// The same response with one more transfer at the end.
    pub fn add_message(self, msg: Transfer) -> (r: Response)
        ensures
            r@.attributes == self@.attributes,
            r@.messages == self@.messages.push(msg@),
    {
        let mut r = self;
        r.messages.push(msg);
        assert(r@.attributes =~= self@.attributes);
        assert(r@.messages =~= self@.messages.push(msg@));
        r
    }
}

} // verus!
