use callora_vault::error::VaultError;
use callora_vault::ledger::{batch_debit, credit, debit, withdraw};
use callora_vault::record::DeductItem;

fn items(amounts: &[i128]) -> Vec<DeductItem> {
    amounts
        .iter()
        .map(|amount| DeductItem {
            amount: *amount,
            request_id: None,
        })
        .collect()
}

#[test]
fn credit_adds_the_amount() {
    assert_eq!(credit(1000, 0, 200), Ok(1200));
    assert_eq!(credit(0, 0, 1), Ok(1));
}

#[test]
fn credit_rejects_amounts_that_are_not_positive() {
    assert_eq!(credit(1000, 0, 0), Err(VaultError::AmountNotPositive));
    assert_eq!(credit(1000, 0, -1), Err(VaultError::AmountNotPositive));
    assert_eq!(credit(1000, 10, i128::MIN), Err(VaultError::AmountNotPositive));
}

#[test]
fn credit_holds_the_amount_against_the_minimum() {
    assert_eq!(credit(0, 10, 9), Err(VaultError::BelowMinimum));
    assert_eq!(credit(0, 10, 10), Ok(10));
    assert_eq!(credit(5, 10, 11), Ok(16));
}

#[test]
fn credit_rejects_what_the_balance_cannot_hold() {
    assert_eq!(credit(i128::MAX - 1, 0, 1), Ok(i128::MAX));
    assert_eq!(credit(i128::MAX - 1, 0, 2), Err(VaultError::Overflow));
    assert_eq!(credit(i128::MAX, 0, 1), Err(VaultError::Overflow));
    assert_eq!(credit(1, 0, i128::MAX), Err(VaultError::Overflow));
}

#[test]
fn credit_reports_the_minimum_before_the_overflow() {
    assert_eq!(credit(i128::MAX, 10, 5), Err(VaultError::BelowMinimum));
}

#[test]
fn debit_takes_the_amount() {
    assert_eq!(debit(1200, i128::MAX, 50), Ok(1150));
    assert_eq!(debit(100, 100, 100), Ok(0));
}

#[test]
fn debit_rejects_amounts_that_are_not_positive() {
    assert_eq!(debit(100, 100, 0), Err(VaultError::AmountNotPositive));
    assert_eq!(debit(100, 100, -50), Err(VaultError::AmountNotPositive));
}

#[test]
fn debit_holds_the_amount_against_the_cap() {
    assert_eq!(debit(1000, 100, 150), Err(VaultError::ExceedsCap));
    assert_eq!(debit(1000, 100, 101), Err(VaultError::ExceedsCap));
    assert_eq!(debit(1000, 100, 100), Ok(900));
}

#[test]
fn debit_reports_the_cap_before_the_balance() {
    assert_eq!(debit(10, 100, 150), Err(VaultError::ExceedsCap));
    assert_eq!(debit(10, 100, 50), Err(VaultError::InsufficientBalance));
}

#[test]
fn debit_rejects_more_than_the_balance() {
    assert_eq!(debit(1150, i128::MAX, 2000), Err(VaultError::InsufficientBalance));
    assert_eq!(debit(0, i128::MAX, 1), Err(VaultError::InsufficientBalance));
}

#[test]
fn withdraw_takes_the_amount_without_a_cap() {
    assert_eq!(withdraw(100, 40), Ok(60));
    assert_eq!(withdraw(100, 100), Ok(0));
    assert_eq!(withdraw(i128::MAX, i128::MAX), Ok(0));
}

#[test]
fn withdraw_rejects_bad_amounts() {
    assert_eq!(withdraw(100, 0), Err(VaultError::AmountNotPositive));
    assert_eq!(withdraw(100, -1), Err(VaultError::AmountNotPositive));
    assert_eq!(withdraw(100, 101), Err(VaultError::InsufficientBalance));
}

#[test]
fn batch_debit_gives_the_balance_after_all_items() {
    assert_eq!(batch_debit(100, i128::MAX, &items(&[10, 20, 30])), Ok(40));
    assert_eq!(batch_debit(60, i128::MAX, &items(&[10, 20, 30])), Ok(0));
    assert_eq!(batch_debit(5, 5, &items(&[5])), Ok(0));
}

#[test]
fn batch_debit_rejects_an_empty_batch() {
    assert_eq!(batch_debit(100, 100, &items(&[])), Err(VaultError::EmptyBatch));
}

#[test]
fn batch_debit_holds_each_item_against_what_is_left() {
    assert_eq!(
        batch_debit(25, i128::MAX, &items(&[60, 60])),
        Err(VaultError::InsufficientBalance)
    );
    assert_eq!(
        batch_debit(100, i128::MAX, &items(&[60, 60])),
        Err(VaultError::InsufficientBalance)
    );
    assert_eq!(
        batch_debit(59, i128::MAX, &items(&[10, 20, 30])),
        Err(VaultError::InsufficientBalance)
    );
}

#[test]
fn batch_debit_reports_the_first_item_that_fails() {
    assert_eq!(
        batch_debit(100, 50, &items(&[10, 0, 1000])),
        Err(VaultError::AmountNotPositive)
    );
    assert_eq!(
        batch_debit(100, 50, &items(&[10, 51, 0])),
        Err(VaultError::ExceedsCap)
    );
    assert_eq!(
        batch_debit(100, 500, &items(&[200, 0])),
        Err(VaultError::InsufficientBalance)
    );
    assert_eq!(
        batch_debit(100, 500, &items(&[100, 1, -1])),
        Err(VaultError::InsufficientBalance)
    );
}

#[test]
fn batch_debit_does_not_overflow_on_large_items() {
    assert_eq!(
        batch_debit(i128::MAX, i128::MAX, &items(&[i128::MAX, i128::MAX])),
        Err(VaultError::InsufficientBalance)
    );
    assert_eq!(
        batch_debit(i128::MAX, i128::MAX, &items(&[i128::MAX - 1, 1])),
        Ok(0)
    );
}
