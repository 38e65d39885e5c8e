//! The boundary operations over the persisted store: the same validation
//! and guard rules as the in-memory core, decided in verified code between
//! calls through the persistence gateway.
//!
//! What a query returns depends on what is on disk, so these contracts pin
//! every outcome that the arguments alone determine, and constrain the
//! error kinds of the rest; the rules themselves are stated exactly on the
//! in-memory core in `ledger`.

use vstd::prelude::*;

use crate::account::Account;
use crate::account::AccountType;
use crate::account::spec_parse_account_type;
use crate::errors::LedgerError;
use crate::gateway;
use crate::gateway::AccountRow;

verus! {

/// The account record a raw row stands for, if its type label belongs to
/// the closed set; the active flag is set exactly when the stored integer
/// is one.
pub open spec fn spec_account_of_row(row: AccountRow) -> Option<Account> {
    match spec_parse_account_type(row.2@) {
        Some(t) => Some(
            (Account {
                id: Some(row.0),
                name: row.1,
                account_type: t,
                parent_id: row.3,
                balance: row.4,
                is_active: row.5 == 1,
            }),
        ),
        None => None,
    }
}

/// Converts the raw rows of one snapshot into account records, in order; a
/// row whose type label falls outside the closed set marks a corrupted
/// store and fails the whole read.
#[verifier::loop_isolation(false)]
pub fn accounts_from_rows(rows: Vec<AccountRow>) -> (r: Result<Vec<Account>, LedgerError>)
    ensures
        r is Ok <==> (forall|i: int|
            0 <= i < rows@.len() ==> (#[trigger] spec_account_of_row(rows@[i])) is Some),
        r matches Ok(v) ==> v@.len() == rows@.len() && (forall|i: int|
            0 <= i < rows@.len() ==> Some(v@[i]) == #[trigger] spec_account_of_row(rows@[i])),
        r matches Err(e) ==> e == LedgerError::Storage,
{
    let mut out: Vec<Account> = Vec::new();
    let mut i: usize = 0;
    while i < rows.len()
        invariant
            i <= rows.len(),
            out@.len() == i,
            forall|j: int| 0 <= j < i ==> (#[trigger] spec_account_of_row(rows@[j])) is Some,
            forall|j: int| 0 <= j < i ==> Some(out@[j]) == #[trigger] spec_account_of_row(rows@[j]),
        decreases rows.len() - i,
    {
        let row = &rows[i];
        let t = match AccountType::parse(row.2.as_str()) {
            Some(t) => t,
            None => {
                proof {
                    assert(spec_account_of_row(rows@[i as int]) is None);
                }
                return Err(LedgerError::Storage);
            },
        };
        out.push(
            Account {
                id: Some(row.0),
                name: row.1.clone(),
                account_type: t,
                parent_id: row.3,
                balance: row.4,
                is_active: row.5 == 1,
            },
        );
        i += 1;
    }
    Ok(out)
}

/// Creates an account in the persisted store. The closed-set validation is
/// decided by the arguments alone: the request fails with
/// `InvalidAccountType` exactly when the type label is outside the set, and
/// nothing is persisted. A request with no parent can never fail the parent
/// check; every other failure is the storage engine's own. On success the
/// generated identifier is returned.
pub fn create_account(
    conn: &rusqlite::Connection,
    name: &str,
    account_type: &str,
    parent_id: Option<i64>,
) -> (r: Result<i64, LedgerError>)
    ensures
        spec_parse_account_type(account_type@) is None <==> r == Err::<i64, LedgerError>(
            LedgerError::InvalidAccountType,
        ),
        parent_id is None ==> r != Err::<i64, LedgerError>(LedgerError::ParentNotFound),
        r matches Err(e) ==> e == LedgerError::InvalidAccountType || e == LedgerError::ParentNotFound
            || e == LedgerError::DuplicateName || e == LedgerError::Storage,
{
    let t = match AccountType::parse(account_type) {
        Some(t) => t,
        None => {
            return Err(LedgerError::InvalidAccountType);
        },
    };
    if let Some(p) = parent_id {
        match gateway::query_exists_i64(conn, "SELECT EXISTS(SELECT 1 FROM accounts WHERE id = ?)", p) {
            Ok(true) => {},
            Ok(false) => {
                return Err(LedgerError::ParentNotFound);
            },
            Err(_) => {
                return Err(LedgerError::Storage);
            },
        }
    }
    match gateway::query_exists_str(conn, "SELECT EXISTS(SELECT 1 FROM accounts WHERE name = ?)", name) {
        Ok(false) => {},
        Ok(true) => {
            return Err(LedgerError::DuplicateName);
        },
        Err(_) => {
            return Err(LedgerError::Storage);
        },
    }
    let label = t.label();
    match gateway::exec_insert_account(
        conn,
        "INSERT INTO accounts (name, type, parent_id, balance, is_active) VALUES (?, ?, ?, 0, 1)",
        name,
        label.as_str(),
        parent_id,
    ) {
        Ok(_) => Ok(gateway::last_insert_rowid(conn)),
        Err(_) => Err(LedgerError::Storage),
    }
}

/// Reads a snapshot of all persisted accounts; callers must not rely on
/// any particular order. The only failure is the storage engine's own, or a
/// row this build cannot read back.
pub fn get_accounts(conn: &rusqlite::Connection) -> (r: Result<Vec<Account>, LedgerError>)
    ensures
        r matches Err(e) ==> e == LedgerError::Storage,
{
    let rows = match gateway::query_account_rows(
        conn,
        "SELECT id, name, type, parent_id, balance, is_active FROM accounts",
    ) {
        Ok(rows) => rows,
        Err(_) => {
            return Err(LedgerError::Storage);
        },
    };
    accounts_from_rows(rows)
}

/// Updates the named account in the persisted store. The closed-set
/// validation is decided by the arguments alone; the deactivation guard
/// consults the store for history, and a request that keeps the account
/// active can never fail it. The schema's constraints guard the rest; the
/// count of modified rows is returned, zero for an unknown identifier.
pub fn update_account(
    conn: &rusqlite::Connection,
    id: i64,
    name: &str,
    account_type: &str,
    parent_id: Option<i64>,
    is_active: bool,
) -> (r: Result<usize, LedgerError>)
    ensures
        spec_parse_account_type(account_type@) is None <==> r == Err::<usize, LedgerError>(
            LedgerError::InvalidAccountType,
        ),
        is_active ==> r != Err::<usize, LedgerError>(LedgerError::CannotDeactivateWithHistory),
        r matches Err(e) ==> e == LedgerError::InvalidAccountType
            || e == LedgerError::CannotDeactivateWithHistory || e == LedgerError::Storage,
{
    let t = match AccountType::parse(account_type) {
        Some(t) => t,
        None => {
            return Err(LedgerError::InvalidAccountType);
        },
    };
    let has_transactions = match gateway::query_exists_i64_pair(
        conn,
        "SELECT EXISTS(SELECT 1 FROM transactions WHERE debit_account_id = ? OR credit_account_id = ?)",
        id,
        id,
    ) {
        Ok(b) => b,
        Err(_) => {
            return Err(LedgerError::Storage);
        },
    };
    if has_transactions && !is_active {
        return Err(LedgerError::CannotDeactivateWithHistory);
    }
    let label = t.label();
    match gateway::exec_update_account(
        conn,
        "UPDATE accounts SET name = ?, type = ?, parent_id = ?, is_active = ? WHERE id = ?",
        name,
        label.as_str(),
        parent_id,
        is_active,
        id,
    ) {
        Ok(n) => Ok(n),
        Err(_) => Err(LedgerError::Storage),
    }
}

} // verus!
