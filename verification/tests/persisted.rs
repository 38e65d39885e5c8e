use ledger_core::account::AccountType;
use ledger_core::errors::LedgerError;
use ledger_core::migrate::init_db;
use ledger_core::store::{create_account, get_accounts, update_account};
use rusqlite::Connection;

fn fresh_db() -> Connection {
    let conn = Connection::open_in_memory().unwrap();
    init_db(&conn).unwrap();
    conn
}

#[test]
fn persisted_create_and_read_back() {
    let conn = fresh_db();
    let id = create_account(&conn, "Cash", "Asset", None).unwrap();
    assert_eq!(id, 1);

    let accounts = get_accounts(&conn).unwrap();
    assert_eq!(accounts.len(), 1);
    assert_eq!(accounts[0].id, Some(1));
    assert_eq!(accounts[0].name, "Cash");
    assert_eq!(accounts[0].account_type, AccountType::Asset);
    assert_eq!(accounts[0].parent_id, None);
    assert_eq!(accounts[0].balance, 0);
    assert!(accounts[0].is_active);
}

#[test]
fn persisted_validation_rules() {
    let conn = fresh_db();

    assert_eq!(
        create_account(&conn, "Cash", "Banana", None),
        Err(LedgerError::InvalidAccountType)
    );
    assert_eq!(
        create_account(&conn, "Ghost", "Asset", Some(999)),
        Err(LedgerError::ParentNotFound)
    );

    assert_eq!(create_account(&conn, "Cash", "Asset", None), Ok(1));
    assert_eq!(
        create_account(&conn, "Cash", "Liability", None),
        Err(LedgerError::DuplicateName)
    );

    assert_eq!(
        create_account(&conn, "Petty Cash", "Asset", Some(1)),
        Ok(2)
    );
}

#[test]
fn persisted_deactivation_guard() {
    let conn = fresh_db();
    assert_eq!(create_account(&conn, "Cash", "Asset", None), Ok(1));
    assert_eq!(create_account(&conn, "Sales", "Income", None), Ok(2));

    conn.execute(
        "INSERT INTO transactions (date, amount, debit_account_id, credit_account_id) VALUES (?, ?, ?, ?)",
        ("2025-01-15", 500i64, 1i64, 2i64),
    )
    .unwrap();

    assert_eq!(
        update_account(&conn, 1, "Cash", "Asset", None, false),
        Err(LedgerError::CannotDeactivateWithHistory)
    );

    let accounts = get_accounts(&conn).unwrap();
    assert!(accounts.iter().all(|a| a.is_active));
}

#[test]
fn persisted_update_paths() {
    let conn = fresh_db();
    assert_eq!(create_account(&conn, "Cash", "Asset", None), Ok(1));

    assert_eq!(
        update_account(&conn, 1, "Cash", "Frozen", None, true),
        Err(LedgerError::InvalidAccountType)
    );
    assert_eq!(update_account(&conn, 42, "Other", "Equity", None, true), Ok(0));

    assert_eq!(
        update_account(&conn, 1, "Wallet", "Expense", None, true),
        Ok(1)
    );
    let accounts = get_accounts(&conn).unwrap();
    assert_eq!(accounts[0].name, "Wallet");
    assert_eq!(accounts[0].account_type, AccountType::Expense);

    assert_eq!(create_account(&conn, "Bank", "Asset", None), Ok(2));
    assert_eq!(
        update_account(&conn, 2, "Wallet", "Asset", None, true),
        Err(LedgerError::Storage)
    );
}
