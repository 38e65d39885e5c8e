//! The account record of the chart of accounts, and its closed
//! classification set.

use vstd::prelude::*;

verus! {

/// The closed set of account classifications. Every write validates against
/// this set; a classification is never inferred.
#[derive(Clone, Copy, Debug, PartialEq, Eq, Structural)]
pub enum AccountType {
    Asset,
    Liability,
    Equity,
    Income,
    Expense,
}

/// What `AccountType::parse` returns on each sequence of characters: the
/// matching member of the closed set, or nothing.
pub open spec fn spec_parse_account_type(s: Seq<char>) -> Option<AccountType> {
    if s == "Asset"@ {
        Some(AccountType::Asset)
    } else if s == "Liability"@ {
        Some(AccountType::Liability)
    } else if s == "Equity"@ {
        Some(AccountType::Equity)
    } else if s == "Income"@ {
        Some(AccountType::Income)
    } else if s == "Expense"@ {
        Some(AccountType::Expense)
    } else {
        None
    }
}

impl AccountType {
    /// The label under which this classification is stored.
    pub open spec fn spec_label(self) -> Seq<char> {
        match self {
            AccountType::Asset => "Asset"@,
            AccountType::Liability => "Liability"@,
            AccountType::Equity => "Equity"@,
            AccountType::Income => "Income"@,
            AccountType::Expense => "Expense"@,
        }
    }

    /// Parses a stored or requested label against the closed set,
    /// case-sensitively; anything outside the set is rejected.
    pub fn parse(s: &str) -> (r: Option<AccountType>)
        ensures
            r == spec_parse_account_type(s@),
    {
        let o = s.to_owned();
        if o == "Asset".to_owned() {
            Some(AccountType::Asset)
        } else if o == "Liability".to_owned() {
            Some(AccountType::Liability)
        } else if o == "Equity".to_owned() {
            Some(AccountType::Equity)
        } else if o == "Income".to_owned() {
            Some(AccountType::Income)
        } else if o == "Expense".to_owned() {
            Some(AccountType::Expense)
        } else {
            None
        }
    }

    /// The label under which this classification is stored.
    pub fn label(&self) -> (r: String)
        ensures
            r@ == self.spec_label(),
    {
        match self {
            AccountType::Asset => "Asset".to_owned(),
            AccountType::Liability => "Liability".to_owned(),
            AccountType::Equity => "Equity".to_owned(),
            AccountType::Income => "Income".to_owned(),
            AccountType::Expense => "Expense".to_owned(),
        }
    }
}

/// One record of the chart of accounts. The balance is held in minor
/// currency units (a fixed-point amount), never in a binary floating-point
/// number, so that no rounding drift can occur.
pub struct Account {
    /// Server-generated identifier; absent until the record is persisted.
    pub id: Option<i64>,
    /// Globally unique, non-empty display name; equality is case-sensitive.
    pub name: String,
    pub account_type: AccountType,
    /// Optional parent account, forming a forest for hierarchical grouping.
    pub parent_id: Option<i64>,
    /// Running balance in minor currency units.
    pub balance: i64,
    /// An account with recorded transaction history cannot become inactive.
    pub is_active: bool,
}

impl Clone for Account {
    fn clone(&self) -> (r: Self)
        ensures
            r == *self,
    {
        Account {
            id: self.id,
            name: self.name.clone(),
            account_type: self.account_type,
            parent_id: self.parent_id,
            balance: self.balance,
            is_active: self.is_active,
        }
    }
}

/// One immutable double-entry record: two distinct accounts, a positive
/// amount in minor currency units, and a string-encoded calendar date.
pub struct Transaction {
    pub id: i64,
    pub date: String,
    pub amount: i64,
    pub debit_account_id: i64,
    pub credit_account_id: i64,
    pub description: Option<String>,
}

} // verus!
