//! The typed failures of the bookkeeping core, grouped as the boundary
//! reports them: validation failures, business-rule violations, resource
//! faults, and fatal startup faults.

use vstd::prelude::*;

verus! {

#[derive(Clone, Copy, Debug, PartialEq, Eq, Structural)]
pub enum LedgerError {
    /// The account type is outside the closed classification set.
    InvalidAccountType,
    /// The requested parent account does not exist.
    ParentNotFound,
    /// An account with the requested name already exists.
    DuplicateName,
    /// The account has recorded transaction history and may not be
    /// deactivated.
    CannotDeactivateWithHistory,
    /// A transaction named the same account as both debit and credit party.
    SelfReferentialTransaction,
    /// A transaction named an account that does not exist.
    AccountNotFound,
    /// A transaction amount was not a positive quantity.
    InvalidAmount,
    /// The change would break a schema constraint (a duplicate name or a
    /// dangling parent reference), as the storage engine would report it.
    ConstraintViolation,
    /// Exclusive access to the store could not be acquired.
    LockUnavailable,
    /// The storage engine reported a fault; the detail is not surfaced.
    Storage,
    /// A schema migration script failed; fatal at startup.
    MigrationFailed,
}

/// The human-readable message each error carries to the boundary. Resource
/// faults are reported with a generic retry suggestion and never expose the
/// storage engine's own text.
pub open spec fn spec_message(e: LedgerError) -> Seq<char> {
    match e {
        LedgerError::InvalidAccountType => "Invalid account type"@,
        LedgerError::ParentNotFound => "Parent account does not exist"@,
        LedgerError::DuplicateName => "An account with this name already exists"@,
        LedgerError::CannotDeactivateWithHistory => "Cannot deactivate account with transaction history"@,
        LedgerError::SelfReferentialTransaction => "Transaction debit and credit accounts must differ"@,
        LedgerError::AccountNotFound => "Transaction account does not exist"@,
        LedgerError::InvalidAmount => "Transaction amount must be positive"@,
        LedgerError::ConstraintViolation => "Account constraint violated"@,
        LedgerError::LockUnavailable => "Database error. Please try again."@,
        LedgerError::Storage => "Database error. Please try again."@,
        LedgerError::MigrationFailed => "Failed to run database migrations"@,
    }
}

impl LedgerError {
    pub fn message(&self) -> (r: String)
        ensures
            r@ == spec_message(*self),
    {
        match self {
            LedgerError::InvalidAccountType => "Invalid account type".to_owned(),
            LedgerError::ParentNotFound => "Parent account does not exist".to_owned(),
            LedgerError::DuplicateName => "An account with this name already exists".to_owned(),
            LedgerError::CannotDeactivateWithHistory => "Cannot deactivate account with transaction history".to_owned(),
            LedgerError::SelfReferentialTransaction => "Transaction debit and credit accounts must differ".to_owned(),
            LedgerError::AccountNotFound => "Transaction account does not exist".to_owned(),
            LedgerError::InvalidAmount => "Transaction amount must be positive".to_owned(),
            LedgerError::ConstraintViolation => "Account constraint violated".to_owned(),
            LedgerError::LockUnavailable => "Database error. Please try again.".to_owned(),
            LedgerError::Storage => "Database error. Please try again.".to_owned(),
            LedgerError::MigrationFailed => "Failed to run database migrations".to_owned(),
        }
    }
}

} // verus!
