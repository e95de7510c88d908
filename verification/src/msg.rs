//! The messages that the ledger accepts.

use crate::state::OrderState;
use vstd::prelude::*;

verus! {

/// `cw20::Logo`, carried through as an opaque value.
#[verifier::external_type_specification]
#[verifier::external_body]
pub struct ExLogo(cw20::Logo);

/// `cw20::Cw20Coin`, carried through as an opaque value.
#[verifier::external_type_specification]
#[verifier::external_body]
pub struct ExCw20Coin(cw20::Cw20Coin);

/// `cw20::MinterResponse`, carried through as an opaque value.
#[verifier::external_type_specification]
#[verifier::external_body]
pub struct ExMinterResponse(cw20::MinterResponse);

/// Sets the ledger up with one accepted asset.
#[derive(Clone, Debug, PartialEq)]
pub struct InstantiateMsg {
    pub token_contract_address: String,
}

#[derive(Clone, Debug, PartialEq)]
pub struct InstantiateMarketingInfo {
    pub project: Option<String>,
    pub description: Option<String>,
    pub marketing: Option<String>,
    pub logo: Option<cw20::Logo>,
}

#[derive(Clone, Debug, PartialEq)]
pub struct Cw20Instantiate {
    pub name: String,
    pub symbol: String,
    pub decimals: u8,
    pub initial_balances: Vec<cw20::Cw20Coin>,
    pub mint: Option<cw20::MinterResponse>,
    pub marketing: Option<InstantiateMarketingInfo>,
}

/// The operations that change the ledger.
#[derive(Clone, Debug, PartialEq)]
pub enum ExecuteMsg {
    ListTokenOnLeverage { token_address: String },
    Receive(Cw20ReceiveMsg),
    DepositNative { token_address: String },
    Borrow(TokenData),
    ExecuteOrder(OrderExecute),
    Repay(TokenData),
    Burn(TokenData),
    WithdrawToken(WithdrawData),
}

#[derive(Clone, Debug, PartialEq)]
pub struct LiquidateData {
    pub liquidate_token_name: String,
    pub exchange_token_name: String,
    pub liquidate_amount: u128,
    pub exchange_amount: u128,
    pub user_address: String,
}

/// An asset and an amount of it.
#[derive(Clone, Debug, PartialEq)]
pub struct TokenData {
    pub token_address: String,
    pub token_amount: u128,
}

/// A withdrawal: `withdraw_type` is `"native"`, paid out in the
/// denomination `native`, or `"fungible"`, paid out by the token contract
/// `usdc`.
#[derive(Clone, Debug, PartialEq)]
pub struct WithdrawData {
    pub token_address: String,
    pub token_amount: u128,
    pub withdraw_type: String,
    pub native: Option<String>,
    pub usdc: Option<String>,
}

/// What a token contract sends when `sender` has moved `amount` of its
/// tokens to the ledger.
#[derive(Clone, Debug, PartialEq)]
pub struct Cw20ReceiveMsg {
    pub sender: String,
    pub amount: u128,
    pub msg: Vec<u8>,
}

#[derive(Clone, Debug, PartialEq)]
pub struct DepositCollateralReceive {
    pub message: String,
    pub ratio: u64,
    pub token_contract: String,
}

/// An exchange to carry out for `user_address`: `amount_in` of `token_in`
/// is sold for `amount_out` of `token_out`.
#[derive(Clone, Debug, PartialEq)]
pub struct OrderExecute {
    pub order_id: String,
    pub user_address: String,
    pub token_in: String,
    pub token_out: String,
    pub amount_in: u128,
    pub amount_out: u128,
}

/// The questions that the ledger answers.
#[derive(Clone, Debug, PartialEq)]
pub enum QueryMsg {
    UserCollateralTokenBalance(QueryTokenData),
    UserWrappedTokenBalance(QueryTokenData),
    UserBorrowTokenBalance(QueryTokenData),
    UserVTokenBalance(QueryTokenData),
    UserOrders { user_address: String },
}

/// The row that a balance query reads.
#[derive(Clone, Debug, PartialEq)]
pub struct QueryTokenData {
    pub token_address: String,
    pub user_address: String,
}

/// The answer to a query: a balance, or the order history of a user.
#[derive(Clone, Debug, PartialEq)]
pub enum QueryResponse {
    Balance(u128),
    Orders(Vec<OrderState>),
}

} // verus!
