//! The failures that a ledger operation can report.

use vstd::prelude::*;
use vstd::string::StringExecFns;

verus! {

/// `cosmwasm_std::StdError`, carried through as an opaque value.
#[verifier::external_type_specification]
#[verifier::external_body]
pub struct ExStdError(cosmwasm_std::StdError);

/// Why an operation was refused. Every refusal leaves a tag that callers
/// can branch on; only `Std`, `CustomError` and `GenericError` carry more.
#[derive(Debug, PartialEq)]
pub enum ContractError {
    /// The storage layer reported an error of its own.
    Std(cosmwasm_std::StdError),
    Unauthorized {},
    UnauthorizedToken {},
    InsufficientBalance {},
    OverflowBalance {},
    InvalidRatio {},
    ContractInstantiateError {},
    CustomError { val: String },
    BorrowAmountIsNotZero {},
    Overflow {},
    UnmintedBalanceLoadError {},
    InsufficientUnmintedToken {},
    BorrowBalanceLoadError {},
    UserVTokenBalanceLoadError {},
    RepayOverflow {},
    PayBorrowAmount {},
    ProfitBalanceLoadError {},
    GenericError { error: String },
    UpdateTokenListFailed {},
    UnableToFetchListedToken {},
    WrappedTokenQueryFailed {},
    UserTokenBalanceQueryFailed {},
    UserBorrowTokenBalanceQueryFailed {},
    UserProfitTokenBalanceQueryFailed {},
    UpdateWrapTokenErr {},
    UpdateWrapTokenBorrowErr {},
    UnableToFetchWrapBorrowToken {},
    InsufficientNativeToken {},
    FailedConversion {},
    UserVTokenBalanceQueryFailed {},
    UserOrderQueryFailed {},
}

/// What a contract can say of a `ContractError`: the text of the two
/// variants that carry one, the bare fact of a storage error, and the
/// variant itself for all the others.
pub ghost enum ErrorView {
    Std,
    Custom(Seq<char>),
    Generic(Seq<char>),
    Plain(ContractError),
}

impl View for ContractError {
    type V = ErrorView;

    open spec fn view(&self) -> ErrorView {
        match *self {
            ContractError::Std(_) => ErrorView::Std,
            ContractError::CustomError { val } => ErrorView::Custom(val@),
            ContractError::GenericError { error } => ErrorView::Generic(error@),
            plain => ErrorView::Plain(plain),
        }
    }
}

/// `ToString::to_string` on a `cosmwasm_std::StdError`: the text of the
/// error. Nothing is claimed of it.
#[verifier::external_body]
pub(crate) fn describe(error: &cosmwasm_std::StdError) -> (text: String) {
    error.to_string()
}

/// What `{:?}` prints for a string with the characters `text`: the string
/// in double quotes, with the characters that need it escaped.
pub uninterp spec fn debug_text(text: Seq<char>) -> Seq<char>;

/// `format!` with `{:?}` on a string: the string as `Debug` prints it.
#[verifier::external_body]
pub(crate) fn quoted(text: &str) -> (r: String)
    ensures
        r@ == debug_text(text@),
{
    format!("{:?}", text)
}

impl ContractError {
    /// The text of a failure that is no storage error.
    pub open spec fn text(self) -> Seq<char>
        recommends
            !(self is Std),
    {
        match self {
            ContractError::Std(_) => seq![],
            ContractError::Unauthorized {} => "Unauthorized"@,
            ContractError::UnauthorizedToken {} => "Unauthorized Token"@,
            ContractError::InsufficientBalance {} => "Insufficient Balance"@,
            ContractError::OverflowBalance {} => "Overflow Balance"@,
            ContractError::InvalidRatio {} => "Ratio must be smaller than 10"@,
            ContractError::ContractInstantiateError {} => "Contract Instantiate Error"@,
            ContractError::CustomError { val } => "Custom Error val: "@ + debug_text(val@),
            ContractError::BorrowAmountIsNotZero {} => "Borrow amount is not zero"@,
            ContractError::Overflow {} => "Calculation Overflow"@,
            ContractError::UnmintedBalanceLoadError {} => "User Unminted Balance Load Error"@,
            ContractError::InsufficientUnmintedToken {} => "Insuffient unminted token for borrowing"@,
            ContractError::BorrowBalanceLoadError {} => "User Borror Balance Load Error"@,
            ContractError::UserVTokenBalanceLoadError {} => "User VToken Balance Load Error"@,
            ContractError::RepayOverflow {} => "User repay more than borrowed"@,
            ContractError::PayBorrowAmount {} => "Pay your borrowed amount"@,
            ContractError::ProfitBalanceLoadError {} => "User Profit Balance Load Error"@,
            ContractError::GenericError { error } => "An error occurred: "@ + debug_text(error@),
            ContractError::UpdateTokenListFailed {} => "Update token list failed"@,
            ContractError::UnableToFetchListedToken {} => "Unable to fetch listed token"@,
            ContractError::WrappedTokenQueryFailed {} => "Wrapped token query failed"@,
            ContractError::UserTokenBalanceQueryFailed {} => "User token balance query failed"@,
            ContractError::UserBorrowTokenBalanceQueryFailed {} => "User borrow token balance query failed"@,
            ContractError::UserProfitTokenBalanceQueryFailed {} => "User profit token balance query failed"@,
            ContractError::UpdateWrapTokenErr {} => "unable to update wrapped token balance"@,
            ContractError::UpdateWrapTokenBorrowErr {} => "unable to update wrapped token borrow balance"@,
            ContractError::UnableToFetchWrapBorrowToken {} => "Unable to fetch wrapped borrow token balance"@,
            ContractError::InsufficientNativeToken {} => "Insufficient native tokens"@,
            ContractError::FailedConversion {} => "Failed to convert amount"@,
            ContractError::UserVTokenBalanceQueryFailed {} => "User vtoken balance query failed"@,
            ContractError::UserOrderQueryFailed {} => "User orders query failed"@,
        }
    }

    /// The failure in words. A storage error speaks for itself; every
    /// other failure has the text that `text` gives.
    pub fn message(&self) -> (r: String)
        ensures
            !(self is Std) ==> r@ == self.text(),
    {
        match self {
            ContractError::Std(e) => describe(e),
            ContractError::Unauthorized {} => "Unauthorized".to_owned(),
            ContractError::UnauthorizedToken {} => "Unauthorized Token".to_owned(),
            ContractError::InsufficientBalance {} => "Insufficient Balance".to_owned(),
            ContractError::OverflowBalance {} => "Overflow Balance".to_owned(),
            ContractError::InvalidRatio {} => "Ratio must be smaller than 10".to_owned(),
            ContractError::ContractInstantiateError {} => "Contract Instantiate Error".to_owned(),
            ContractError::CustomError { val } => "Custom Error val: ".to_owned().concat(
                quoted(val.as_str()).as_str(),
            ),
            ContractError::BorrowAmountIsNotZero {} => "Borrow amount is not zero".to_owned(),
            ContractError::Overflow {} => "Calculation Overflow".to_owned(),
            ContractError::UnmintedBalanceLoadError {} => "User Unminted Balance Load Error".to_owned(),
            ContractError::InsufficientUnmintedToken {} => "Insuffient unminted token for borrowing".to_owned(),
            ContractError::BorrowBalanceLoadError {} => "User Borror Balance Load Error".to_owned(),
            ContractError::UserVTokenBalanceLoadError {} => "User VToken Balance Load Error".to_owned(),
            ContractError::RepayOverflow {} => "User repay more than borrowed".to_owned(),
            ContractError::PayBorrowAmount {} => "Pay your borrowed amount".to_owned(),
            ContractError::ProfitBalanceLoadError {} => "User Profit Balance Load Error".to_owned(),
            ContractError::GenericError { error } => "An error occurred: ".to_owned().concat(
                quoted(error.as_str()).as_str(),
            ),
            ContractError::UpdateTokenListFailed {} => "Update token list failed".to_owned(),
            ContractError::UnableToFetchListedToken {} => "Unable to fetch listed token".to_owned(),
            ContractError::WrappedTokenQueryFailed {} => "Wrapped token query failed".to_owned(),
            ContractError::UserTokenBalanceQueryFailed {} => "User token balance query failed".to_owned(),
            ContractError::UserBorrowTokenBalanceQueryFailed {} => "User borrow token balance query failed".to_owned(),
            ContractError::UserProfitTokenBalanceQueryFailed {} => "User profit token balance query failed".to_owned(),
            ContractError::UpdateWrapTokenErr {} => "unable to update wrapped token balance".to_owned(),
            ContractError::UpdateWrapTokenBorrowErr {} => "unable to update wrapped token borrow balance".to_owned(),
            ContractError::UnableToFetchWrapBorrowToken {} => "Unable to fetch wrapped borrow token balance".to_owned(),
            ContractError::InsufficientNativeToken {} => "Insufficient native tokens".to_owned(),
            ContractError::FailedConversion {} => "Failed to convert amount".to_owned(),
            ContractError::UserVTokenBalanceQueryFailed {} => "User vtoken balance query failed".to_owned(),
            ContractError::UserOrderQueryFailed {} => "User orders query failed".to_owned(),
        }
    }
}

/// The result `r` is a refusal for the reason `why`.
pub open spec fn refused<T>(r: Result<T, ContractError>, why: ErrorView) -> bool {
    r matches Err(e) && e@ == why
}

/// The view of a variant that carries nothing.
pub open spec fn plain(e: ContractError) -> ErrorView {
    ErrorView::Plain(e)
}

} // verus!
