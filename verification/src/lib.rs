//! The accounting core of a collateralised leverage protocol.
//!
//! For every asset and user the ledger keeps four balances: the
//! *Collateral* deposited, the *Wrapped* units minted for it (ten for one),
//! the *Borrow* lent against them, and the *Position* that borrowing
//! creates and orders move between assets. For every user it keeps the
//! history of the orders carried out.
//!
//! Each operation reads the rows it needs, decides, and only then writes:
//! an operation that is refused leaves the ledger as it was, and one that
//! is not refused goes through. What an operation decides is given by a
//! specification function over the balances (`borrow_verdict` and its
//! like), and the contract of the operation says that it returns and writes
//! just that. Arithmetic that leaves `u128` is always a refusal.
//!
//! - [`store`] holds the storage and the calls that read and write it,
//!   whose contracts are taken on trust;
//! - [`balance`] holds the rows and the checked arithmetic on them;
//! - [`deposit`], [`borrow`], [`repay`], [`burn`], [`exchange`] and
//!   [`withdraw`] hold one operation each, [`execute`] the list of accepted
//!   assets, and [`query`] the read-only side;
//! - [`contract`] hands each message to its operation;
//! - [`ledger`] states what holds after any sequence of calls.

pub mod balance;
pub mod borrow;
pub mod burn;
pub mod chain;
pub mod contract;
pub mod deposit;
pub mod error;
pub mod exchange;
pub mod execute;
pub mod ledger;
pub mod msg;
pub mod query;
pub mod repay;
pub mod state;
pub mod store;
pub mod withdraw;

pub use crate::error::ContractError;
