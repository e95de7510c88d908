use cosmwasm_std::StdError;
use leverage_contract::balance::{balance_of, credit, debit, redeem, wrap, WRAPPED_PER_COLLATERAL};
use leverage_contract::chain::{Attribute, Response, Transfer};
use leverage_contract::state::{orders_from_rows, OrderState, Status};
use leverage_contract::store::can_store;
use leverage_contract::ContractError;

#[test]
fn an_absent_row_counts_as_zero() {
    assert_eq!(balance_of(None), 0);
    assert_eq!(balance_of(Some(0)), 0);
    assert_eq!(balance_of(Some(17)), 17);
    assert_eq!(balance_of(Some(u128::MAX)), u128::MAX);
}

#[test]
fn credit_adds_or_starts_the_row() {
    assert_eq!(credit(None, 5, ContractError::Overflow {}), Ok(5));
    assert_eq!(credit(None, u128::MAX, ContractError::Overflow {}), Ok(u128::MAX));
    assert_eq!(credit(Some(0), 0, ContractError::Overflow {}), Ok(0));
    assert_eq!(credit(Some(7), 5, ContractError::Overflow {}), Ok(12));
    assert_eq!(credit(Some(u128::MAX - 5), 5, ContractError::Overflow {}), Ok(u128::MAX));
}

#[test]
fn credit_fails_rather_than_wraps() {
    assert_eq!(credit(Some(u128::MAX - 5), 6, ContractError::Overflow {}), Err(ContractError::Overflow {}));
    assert_eq!(
        credit(Some(u128::MAX), 1, ContractError::OverflowBalance {}),
        Err(ContractError::OverflowBalance {})
    );
    assert_eq!(
        credit(Some(u128::MAX), u128::MAX, ContractError::OverflowBalance {}),
        Err(ContractError::OverflowBalance {})
    );
}

#[test]
fn debit_takes_from_a_row_that_is_there() {
    assert_eq!(debit(Some(12), 5, ContractError::UpdateWrapTokenErr {}), Ok(7));
    assert_eq!(debit(Some(12), 12, ContractError::UpdateWrapTokenErr {}), Ok(0));
    assert_eq!(debit(Some(0), 0, ContractError::UpdateWrapTokenErr {}), Ok(0));
    assert_eq!(debit(Some(12), 13, ContractError::UpdateWrapTokenErr {}), Err(ContractError::Overflow {}));
    assert_eq!(debit(Some(0), u128::MAX, ContractError::UpdateWrapTokenErr {}), Err(ContractError::Overflow {}));
    assert_eq!(
        debit(None, 0, ContractError::UpdateWrapTokenErr {}),
        Err(ContractError::UpdateWrapTokenErr {})
    );
    assert_eq!(
        debit(None, 3, ContractError::InsufficientBalance {}),
        Err(ContractError::InsufficientBalance {})
    );
}

#[test]
fn ten_wrapped_units_for_one_of_collateral() {
    assert_eq!(WRAPPED_PER_COLLATERAL, 10);
    assert_eq!(wrap(0), Some(0));
    assert_eq!(wrap(1), Some(10));
    assert_eq!(wrap(100), Some(1000));
    assert_eq!(wrap(u128::MAX / 10), Some(340282366920938463463374607431768211450));
    assert_eq!(wrap(u128::MAX / 10 + 1), None);
    assert_eq!(wrap(u128::MAX), None);
}

#[test]
fn a_tenth_rounded_down() {
    assert_eq!(redeem(0), 0);
    assert_eq!(redeem(9), 0);
    assert_eq!(redeem(10), 1);
    assert_eq!(redeem(19), 1);
    assert_eq!(redeem(1000), 100);
    assert_eq!(redeem(u128::MAX), 34028236692093846346337460743176821145);
}

#[test]
fn status_codes() {
    assert_eq!(Status::Pending.code(), 0);
    assert_eq!(Status::Fullfiled.code(), 1);
    assert_eq!(Status::Rejected.code(), 2);
    assert_eq!(Status::from_code(0), Some(Status::Pending));
    assert_eq!(Status::from_code(1), Some(Status::Fullfiled));
    assert_eq!(Status::from_code(2), Some(Status::Rejected));
    assert_eq!(Status::from_code(3), None);
    assert_eq!(Status::from_code(255), None);
}

fn sample(status: Status) -> OrderState {
    OrderState {
        order_id: "7".to_string(),
        sell_token: "A".to_string(),
        buy_token: "B".to_string(),
        sell_token_amount: 200,
        buy_token_amount: 20,
        time: 99,
        status,
    }
}

#[test]
fn an_order_and_its_row() {
    let row = sample(Status::Fullfiled).to_row();
    assert_eq!(row, ("7".to_string(), "A".to_string(), "B".to_string(), 200, 20, 99, 1));
    assert_eq!(OrderState::from_row(&row), Some(sample(Status::Fullfiled)));
    let mut unknown = row.clone();
    unknown.6 = 3;
    assert_eq!(OrderState::from_row(&unknown), None);
}

#[test]
fn rows_are_decoded_in_order_or_not_at_all() {
    let rows = vec![sample(Status::Rejected).to_row(), sample(Status::Pending).to_row()];
    assert_eq!(orders_from_rows(&rows), Some(vec![sample(Status::Rejected), sample(Status::Pending)]));
    assert_eq!(orders_from_rows(&vec![]), Some(vec![]));
    let mut spoiled = rows.clone();
    spoiled[1].6 = 9;
    assert_eq!(orders_from_rows(&spoiled), None);
}

#[test]
fn an_asset_fits_a_key_up_to_65535_bytes() {
    assert!(can_store(""));
    assert!(can_store("USDC"));
    assert!(can_store(&"a".repeat(65535)));
    assert!(!can_store(&"a".repeat(65536)));
    // Two bytes each.
    assert!(can_store(&"\u{e9}".repeat(32767)));
    assert!(!can_store(&"\u{e9}".repeat(32768)));
}

#[test]
fn a_response_is_built_front_to_back() {
    let empty = Response::new();
    assert_eq!(empty, Response { attributes: vec![], messages: vec![] });
    let transfer = Transfer::Native { to_address: "u".to_string(), denom: "d".to_string(), amount: 1 };
    let built = Response::new()
        .add_attribute("a", "1")
        .add_message(transfer.clone())
        .add_attribute("b", "2")
        .add_message(transfer.clone());
    assert_eq!(
        built,
        Response {
            attributes: vec![
                Attribute { key: "a".to_string(), value: "1".to_string() },
                Attribute { key: "b".to_string(), value: "2".to_string() },
            ],
            messages: vec![transfer.clone(), transfer],
        }
    );
}

#[test]
fn every_failure_has_its_text() {
    let texts = [
        (ContractError::Unauthorized {}, "Unauthorized"),
        (ContractError::UnauthorizedToken {}, "Unauthorized Token"),
        (ContractError::InsufficientBalance {}, "Insufficient Balance"),
        (ContractError::OverflowBalance {}, "Overflow Balance"),
        (ContractError::InvalidRatio {}, "Ratio must be smaller than 10"),
        (ContractError::ContractInstantiateError {}, "Contract Instantiate Error"),
        (ContractError::BorrowAmountIsNotZero {}, "Borrow amount is not zero"),
        (ContractError::Overflow {}, "Calculation Overflow"),
        (ContractError::UnmintedBalanceLoadError {}, "User Unminted Balance Load Error"),
        (ContractError::InsufficientUnmintedToken {}, "Insuffient unminted token for borrowing"),
        (ContractError::BorrowBalanceLoadError {}, "User Borror Balance Load Error"),
        (ContractError::UserVTokenBalanceLoadError {}, "User VToken Balance Load Error"),
        (ContractError::RepayOverflow {}, "User repay more than borrowed"),
        (ContractError::PayBorrowAmount {}, "Pay your borrowed amount"),
        (ContractError::ProfitBalanceLoadError {}, "User Profit Balance Load Error"),
        (ContractError::UpdateTokenListFailed {}, "Update token list failed"),
        (ContractError::UnableToFetchListedToken {}, "Unable to fetch listed token"),
        (ContractError::WrappedTokenQueryFailed {}, "Wrapped token query failed"),
        (ContractError::UserTokenBalanceQueryFailed {}, "User token balance query failed"),
        (ContractError::UserBorrowTokenBalanceQueryFailed {}, "User borrow token balance query failed"),
        (ContractError::UserProfitTokenBalanceQueryFailed {}, "User profit token balance query failed"),
        (ContractError::UpdateWrapTokenErr {}, "unable to update wrapped token balance"),
        (ContractError::UpdateWrapTokenBorrowErr {}, "unable to update wrapped token borrow balance"),
        (ContractError::UnableToFetchWrapBorrowToken {}, "Unable to fetch wrapped borrow token balance"),
        (ContractError::InsufficientNativeToken {}, "Insufficient native tokens"),
        (ContractError::FailedConversion {}, "Failed to convert amount"),
        (ContractError::UserVTokenBalanceQueryFailed {}, "User vtoken balance query failed"),
        (ContractError::UserOrderQueryFailed {}, "User orders query failed"),
    ];
    for (error, text) in texts.iter() {
        assert_eq!(error.message(), *text);
    }
}

#[test]
fn texts_that_quote_their_detail() {
    let custom = ContractError::CustomError { val: "seven".to_string() };
    assert_eq!(custom.message(), "Custom Error val: \"seven\"");
    let generic = ContractError::GenericError { error: "Undefined withdraw type".to_string() };
    assert_eq!(generic.message(), "An error occurred: \"Undefined withdraw type\"");
    let escaped = ContractError::GenericError { error: "a\"b\\c\n".to_string() };
    assert_eq!(escaped.message(), "An error occurred: \"a\\\"b\\\\c\\n\"");
    let empty = ContractError::CustomError { val: String::new() };
    assert_eq!(empty.message(), "Custom Error val: \"\"");
}

#[test]
fn a_storage_error_speaks_for_itself() {
    let error = ContractError::Std(StdError::generic_err("disk on fire"));
    assert_eq!(error.message(), "Generic error: disk on fire");
    assert_eq!(error.message(), StdError::generic_err("disk on fire").to_string());
}
