use ledger_core::account::AccountType;
use ledger_core::errors::LedgerError;
use ledger_core::ledger::Ledger;

#[test]
fn scenario_chart_of_accounts() {
    let mut ledger = Ledger::new();

    let cash = ledger.create_account("Cash".to_string(), "Asset", None);
    assert_eq!(cash, Ok(1));

    let duplicate = ledger.create_account("Cash".to_string(), "Liability", None);
    assert_eq!(duplicate, Err(LedgerError::DuplicateName));

    let petty = ledger.create_account("Petty Cash".to_string(), "Asset", Some(1));
    assert_eq!(petty, Ok(2));

    let ghost = ledger.create_account("Ghost".to_string(), "Asset", Some(999));
    assert_eq!(ghost, Err(LedgerError::ParentNotFound));

    let tx = ledger.record_transaction("2025-01-15".to_string(), 500, 1, 2, None);
    assert_eq!(tx, Ok(1));

    let update = ledger.update_account(1, "Cash".to_string(), "Asset", None, false);
    assert_eq!(update, Err(LedgerError::CannotDeactivateWithHistory));
}

#[test]
fn invalid_type_rejected_without_persistence() {
    let mut ledger = Ledger::new();
    let r = ledger.create_account("Cash".to_string(), "Banana", None);
    assert_eq!(r, Err(LedgerError::InvalidAccountType));
    assert_eq!(ledger.get_accounts().len(), 0);
}

#[test]
fn missing_parent_rejected_without_persistence() {
    let mut ledger = Ledger::new();
    let r = ledger.create_account("Cash".to_string(), "Asset", Some(7));
    assert_eq!(r, Err(LedgerError::ParentNotFound));
    assert_eq!(ledger.get_accounts().len(), 0);
}

#[test]
fn duplicate_name_leaves_original_untouched() {
    let mut ledger = Ledger::new();
    assert_eq!(ledger.create_account("Cash".to_string(), "Asset", None), Ok(1));
    let r = ledger.create_account("Cash".to_string(), "Expense", Some(1));
    assert_eq!(r, Err(LedgerError::DuplicateName));

    let accounts = ledger.get_accounts();
    assert_eq!(accounts.len(), 1);
    assert_eq!(accounts[0].id, Some(1));
    assert_eq!(accounts[0].name, "Cash");
    assert_eq!(accounts[0].account_type, AccountType::Asset);
    assert_eq!(accounts[0].parent_id, None);
}

#[test]
fn deactivation_with_history_leaves_flag_unchanged() {
    let mut ledger = Ledger::new();
    assert_eq!(ledger.create_account("Cash".to_string(), "Asset", None), Ok(1));
    assert_eq!(ledger.create_account("Sales".to_string(), "Income", None), Ok(2));
    assert_eq!(
        ledger.record_transaction("2025-02-01".to_string(), 1200, 1, 2, Some("invoice".to_string())),
        Ok(1)
    );

    let r = ledger.update_account(2, "Sales".to_string(), "Income", None, false);
    assert_eq!(r, Err(LedgerError::CannotDeactivateWithHistory));

    let accounts = ledger.get_accounts();
    assert!(accounts.iter().all(|a| a.is_active));
}

#[test]
fn created_account_round_trip() {
    let mut ledger = Ledger::new();
    let id = ledger
        .create_account("Supplies".to_string(), "Expense", None)
        .unwrap();

    let accounts = ledger.get_accounts();
    let matches: Vec<_> = accounts.iter().filter(|a| a.id == Some(id)).collect();
    assert_eq!(matches.len(), 1);
    assert_eq!(matches[0].name, "Supplies");
    assert_eq!(matches[0].account_type, AccountType::Expense);
    assert_eq!(matches[0].balance, 0);
    assert!(matches[0].is_active);
}

#[test]
fn update_unknown_id_modifies_nothing() {
    let mut ledger = Ledger::new();
    assert_eq!(ledger.create_account("Cash".to_string(), "Asset", None), Ok(1));
    let r = ledger.update_account(42, "Other".to_string(), "Equity", None, true);
    assert_eq!(r, Ok(0));
    assert_eq!(ledger.get_accounts().len(), 1);
}

#[test]
fn update_applies_changes_and_keeps_balance() {
    let mut ledger = Ledger::new();
    assert_eq!(ledger.create_account("Cash".to_string(), "Asset", None), Ok(1));
    assert_eq!(ledger.create_account("Bank".to_string(), "Asset", None), Ok(2));

    let r = ledger.update_account(2, "Checking".to_string(), "Asset", Some(1), true);
    assert_eq!(r, Ok(1));

    let accounts = ledger.get_accounts();
    assert_eq!(accounts[1].id, Some(2));
    assert_eq!(accounts[1].name, "Checking");
    assert_eq!(accounts[1].parent_id, Some(1));
    assert_eq!(accounts[1].balance, 0);
    assert!(accounts[1].is_active);
}

#[test]
fn update_to_taken_name_breaks_constraint() {
    let mut ledger = Ledger::new();
    assert_eq!(ledger.create_account("Cash".to_string(), "Asset", None), Ok(1));
    assert_eq!(ledger.create_account("Bank".to_string(), "Asset", None), Ok(2));
    let r = ledger.update_account(2, "Cash".to_string(), "Asset", None, true);
    assert_eq!(r, Err(LedgerError::ConstraintViolation));
}

#[test]
fn update_invalid_type_rejected() {
    let mut ledger = Ledger::new();
    assert_eq!(ledger.create_account("Cash".to_string(), "Asset", None), Ok(1));
    let r = ledger.update_account(1, "Cash".to_string(), "Frozen", None, true);
    assert_eq!(r, Err(LedgerError::InvalidAccountType));
}

#[test]
fn self_referential_transaction_rejected() {
    let mut ledger = Ledger::new();
    assert_eq!(ledger.create_account("Cash".to_string(), "Asset", None), Ok(1));
    let r = ledger.record_transaction("2025-03-01".to_string(), 100, 1, 1, None);
    assert_eq!(r, Err(LedgerError::SelfReferentialTransaction));
    let accounts = ledger.get_accounts();
    assert_eq!(accounts.len(), 1);
}

#[test]
fn transaction_against_missing_account_rejected() {
    let mut ledger = Ledger::new();
    assert_eq!(ledger.create_account("Cash".to_string(), "Asset", None), Ok(1));
    let r = ledger.record_transaction("2025-03-01".to_string(), 100, 1, 9, None);
    assert_eq!(r, Err(LedgerError::AccountNotFound));
}

#[test]
fn transaction_amount_must_be_positive() {
    let mut ledger = Ledger::new();
    assert_eq!(ledger.create_account("Cash".to_string(), "Asset", None), Ok(1));
    assert_eq!(ledger.create_account("Sales".to_string(), "Income", None), Ok(2));
    let r = ledger.record_transaction("2025-03-01".to_string(), 0, 1, 2, None);
    assert_eq!(r, Err(LedgerError::InvalidAmount));
}

#[test]
fn account_type_labels_round_trip() {
    for label in ["Asset", "Liability", "Equity", "Income", "Expense"] {
        let t = AccountType::parse(label).unwrap();
        assert_eq!(t.label(), label);
    }
    assert_eq!(AccountType::parse("asset"), None);
    assert_eq!(AccountType::parse(""), None);
    assert_eq!(AccountType::parse("Assets"), None);
}

#[test]
fn error_messages_name_the_rule() {
    assert_eq!(
        LedgerError::InvalidAccountType.message(),
        "Invalid account type"
    );
    assert_eq!(
        LedgerError::ParentNotFound.message(),
        "Parent account does not exist"
    );
    assert_eq!(
        LedgerError::DuplicateName.message(),
        "An account with this name already exists"
    );
    assert_eq!(
        LedgerError::CannotDeactivateWithHistory.message(),
        "Cannot deactivate account with transaction history"
    );
    assert_eq!(
        LedgerError::Storage.message(),
        "Database error. Please try again."
    );
    assert_eq!(
        LedgerError::LockUnavailable.message(),
        "Database error. Please try again."
    );
}
