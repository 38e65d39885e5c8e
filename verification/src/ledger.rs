//! The chart-of-accounts manager and the ledger integrity guard over an
//! in-memory store: every operation validates its input, enforces the
//! ledger invariants, and reports a typed error at the point of violation.
//!
//! The same rules constrain the persisted store (see `store`); this module
//! is the core in isolation, verified against an explicit model of the
//! state it owns.

use vstd::prelude::*;

use crate::account::Account;
use crate::account::AccountType;
use crate::account::Transaction;
use crate::account::spec_parse_account_type;
use crate::errors::LedgerError;

verus! {

/// Whether some account in the sequence carries the identifier `id`.
pub open spec fn seq_has_account_id(accounts: Seq<Account>, id: i64) -> bool {
    exists|i: int| 0 <= i < accounts.len() && (#[trigger] accounts[i]).id == Some(id)
}

/// The chart of accounts and the transactions recorded against it, with the
/// counters from which fresh identifiers are generated.
pub struct Ledger {
    pub accounts: Vec<Account>,
    pub transactions: Vec<Transaction>,
    pub next_account_id: i64,
    pub next_transaction_id: i64,
}

impl Ledger {
    /// Identifiers are positive, unique, and below the generation counters.
    pub open spec fn ids_wf(self) -> bool {
        &&& 1 <= self.next_account_id
        &&& 1 <= self.next_transaction_id
        &&& forall|i: int|
            0 <= i < self.accounts@.len() ==> {
                let a = #[trigger] self.accounts@[i];
                a.id matches Some(x) && 1 <= x < self.next_account_id
            }
        &&& forall|i: int, j: int|
            0 <= i < j < self.accounts@.len() ==> (#[trigger] self.accounts@[i]).id != (
            #[trigger] self.accounts@[j]).id
        &&& forall|i: int|
            0 <= i < self.transactions@.len() ==> 1 <= (#[trigger] self.transactions@[i]).id
                < self.next_transaction_id
        &&& forall|i: int, j: int|
            0 <= i < j < self.transactions@.len() ==> (#[trigger] self.transactions@[i]).id != (
            #[trigger] self.transactions@[j]).id
    }

    /// Every account name is unique (case-sensitive, as stored).
    pub open spec fn names_unique(self) -> bool {
        forall|i: int, j: int|
            0 <= i < j < self.accounts@.len() ==> (#[trigger] self.accounts@[i]).name@ != (
            #[trigger] self.accounts@[j]).name@
    }

    /// Every parent reference names an existing account: no dangling parents.
    pub open spec fn parents_wf(self) -> bool {
        forall|i: int|
            0 <= i < self.accounts@.len() ==> ((#[trigger] self.accounts@[i]).parent_id matches Some(
                p,
            ) ==> self.has_account_id(p))
    }

    /// Every transaction names two distinct, existing accounts and carries a
    /// positive amount.
    pub open spec fn txs_wf(self) -> bool {
        forall|i: int|
            0 <= i < self.transactions@.len() ==> {
                let t = #[trigger] self.transactions@[i];
                &&& t.debit_account_id != t.credit_account_id
                &&& self.has_account_id(t.debit_account_id)
                &&& self.has_account_id(t.credit_account_id)
                &&& t.amount > 0
            }
    }

    /// The ledger invariants, which hold of every reachable state.
    pub open spec fn wf(self) -> bool {
        &&& self.ids_wf()
        &&& self.names_unique()
        &&& self.parents_wf()
        &&& self.txs_wf()
    }

    /// Whether an account with identifier `id` exists.
    pub open spec fn has_account_id(self, id: i64) -> bool {
        seq_has_account_id(self.accounts@, id)
    }

    /// Whether some account carries the name `name`.
    pub open spec fn name_taken(self, name: Seq<char>) -> bool {
        exists|i: int|
            0 <= i < self.accounts@.len() && (#[trigger] self.accounts@[i]).name@ == name
    }

    /// Whether account `id` is the debit or credit party of at least one
    /// recorded transaction.
    pub open spec fn has_history(self, id: i64) -> bool {
        exists|i: int|
            0 <= i < self.transactions@.len() && ((#[trigger] self.transactions@[i]).debit_account_id
                == id || self.transactions@[i].credit_account_id == id)
    }

    /// Whether the requested parent, if any, names an existing account.
    pub open spec fn parent_ok(self, parent_id: Option<i64>) -> bool {
        parent_id matches Some(p) ==> self.has_account_id(p)
    }

    /// Whether updating account `id` to the given name and parent would break
    /// a schema constraint: the name is already carried by a different
    /// account, or the parent does not exist.
    pub open spec fn update_conflicts(self, id: i64, name: Seq<char>, parent_id: Option<i64>) -> bool {
        ||| exists|j: int|
            0 <= j < self.accounts@.len() && (#[trigger] self.accounts@[j]).id != Some(id)
                && self.accounts@[j].name@ == name
        ||| !self.parent_ok(parent_id)
    }

    /// An empty ledger; the first generated account identifier is 1.
    pub fn new() -> (r: Ledger)
        ensures
            r.wf(),
            r.accounts@.len() == 0,
            r.transactions@.len() == 0,
            r.next_account_id == 1,
            r.next_transaction_id == 1,
    {
        Ledger {
            accounts: Vec::new(),
            transactions: Vec::new(),
            next_account_id: 1,
            next_transaction_id: 1,
        }
    }

    /// Whether an account with identifier `id` exists.
    pub fn contains_account_id(&self, id: i64) -> (r: bool)
        ensures
            r == self.has_account_id(id),
    {
        let mut i: usize = 0;
        while i < self.accounts.len()
            invariant
                i <= self.accounts.len(),
                forall|j: int| 0 <= j < i ==> (#[trigger] self.accounts@[j]).id != Some(id),
            decreases self.accounts.len() - i,
        {
            match self.accounts[i].id {
                Some(a) => {
                    if a == id {
                        return true;
                    }
                },
                None => {},
            }
            i += 1;
        }
        false
    }

    /// Whether some account carries exactly the name `name`.
    pub fn name_exists(&self, name: &str) -> (r: bool)
        ensures
            r == self.name_taken(name@),
    {
        let want = name.to_owned();
        let mut i: usize = 0;
        while i < self.accounts.len()
            invariant
                i <= self.accounts.len(),
                want@ == name@,
                forall|j: int| 0 <= j < i ==> (#[trigger] self.accounts@[j]).name@ != name@,
            decreases self.accounts.len() - i,
        {
            if self.accounts[i].name == want {
                return true;
            }
            i += 1;
        }
        false
    }

    /// The position of the account with identifier `id`, if it exists.
    fn find_account_index(&self, id: i64) -> (r: Option<usize>)
        ensures
            r matches Some(k) ==> 0 <= k < self.accounts@.len() && self.accounts@[k as int].id
                == Some(id),
            r is None ==> !self.has_account_id(id),
    {
        let mut i: usize = 0;
        while i < self.accounts.len()
            invariant
                i <= self.accounts.len(),
                forall|j: int| 0 <= j < i ==> (#[trigger] self.accounts@[j]).id != Some(id),
            decreases self.accounts.len() - i,
        {
            match self.accounts[i].id {
                Some(a) => {
                    if a == id {
                        return Some(i);
                    }
                },
                None => {},
            }
            i += 1;
        }
        None
    }

    /// Whether account `id` is the debit or credit party of at least one
    /// recorded transaction.
    pub fn account_has_history(&self, id: i64) -> (r: bool)
        ensures
            r == self.has_history(id),
    {
        let mut i: usize = 0;
        while i < self.transactions.len()
            invariant
                i <= self.transactions.len(),
                forall|j: int|
                    0 <= j < i ==> !((#[trigger] self.transactions@[j]).debit_account_id == id
                        || self.transactions@[j].credit_account_id == id),
            decreases self.transactions.len() - i,
        {
            if self.transactions[i].debit_account_id == id || self.transactions[i].credit_account_id
                == id {
                return true;
            }
            i += 1;
        }
        false
    }

    /// Creates an account: validates the type against the closed set, then
    /// that the requested parent exists, then that the name is not already
    /// taken, and only then persists a new record with a zero balance and the
    /// active flag set, returning its generated identifier. A rejected
    /// request changes nothing.
    pub fn create_account(&mut self, name: String, account_type: &str, parent_id: Option<i64>) -> (r:
        Result<i64, LedgerError>)
        requires
            old(self).wf(),
            old(self).next_account_id < i64::MAX,
        ensures
            final(self).wf(),
            final(self).transactions@ == old(self).transactions@,
            final(self).next_transaction_id == old(self).next_transaction_id,
            spec_parse_account_type(account_type@) is None ==> r == Err::<i64, LedgerError>(
                LedgerError::InvalidAccountType,
            ) && *final(self) == *old(self),
            spec_parse_account_type(account_type@) matches Some(t) ==> {
                &&& !old(self).parent_ok(parent_id) ==> r == Err::<i64, LedgerError>(
                    LedgerError::ParentNotFound,
                ) && *final(self) == *old(self)
                &&& old(self).parent_ok(parent_id) && old(self).name_taken(name@) ==> r == Err::<
                    i64,
                    LedgerError,
                >(LedgerError::DuplicateName) && *final(self) == *old(self)
                &&& old(self).parent_ok(parent_id) && !old(self).name_taken(name@) ==> {
                    &&& r == Ok::<i64, LedgerError>(old(self).next_account_id)
                    &&& final(self).accounts@ == old(self).accounts@.push(
                        (Account {
                            id: Some(old(self).next_account_id),
                            name: name,
                            account_type: t,
                            parent_id: parent_id,
                            balance: 0,
                            is_active: true,
                        }),
                    )
                    &&& final(self).next_account_id == old(self).next_account_id + 1
                }
            },
    {
        let t = match AccountType::parse(account_type) {
            Some(t) => t,
            None => {
                return Err(LedgerError::InvalidAccountType);
            },
        };
        if let Some(p) = parent_id {
            if !self.contains_account_id(p) {
                return Err(LedgerError::ParentNotFound);
            }
        }
        if self.name_exists(name.as_str()) {
            return Err(LedgerError::DuplicateName);
        }
        let id = self.next_account_id;
        self.accounts.push(
            Account {
                id: Some(id),
                name: name,
                account_type: t,
                parent_id: parent_id,
                balance: 0,
                is_active: true,
            },
        );
        self.next_account_id = id + 1;
        proof {
            let pre = *old(self);
            let post = *self;
            assert forall|i: int|
                0 <= i < post.accounts@.len() implies ((#[trigger] post.accounts@[i]).parent_id
                matches Some(p) ==> post.has_account_id(p)) by {
                if i < pre.accounts@.len() {
                    assert(post.accounts@[i] == pre.accounts@[i]);
                    match pre.accounts@[i].parent_id {
                        Some(p) => lemma_push_preserves_has_account_id(
                            pre.accounts@,
                            post.accounts@[post.accounts@.len() - 1],
                            p,
                        ),
                        None => (),
                    }
                } else {
                    match parent_id {
                        Some(p) => lemma_push_preserves_has_account_id(
                            pre.accounts@,
                            post.accounts@[post.accounts@.len() - 1],
                            p,
                        ),
                        None => (),
                    }
                }
            }
            assert forall|i: int| 0 <= i < post.transactions@.len() implies {
                let t2 = #[trigger] post.transactions@[i];
                &&& t2.debit_account_id != t2.credit_account_id
                &&& post.has_account_id(t2.debit_account_id)
                &&& post.has_account_id(t2.credit_account_id)
                &&& t2.amount > 0
            } by {
                let t2 = post.transactions@[i];
                assert(pre.transactions@[i] == t2);
                lemma_push_preserves_has_account_id(pre.accounts@, post.accounts@[post.accounts@.len() - 1], t2.debit_account_id);
                lemma_push_preserves_has_account_id(pre.accounts@, post.accounts@[post.accounts@.len() - 1], t2.credit_account_id);
            }
        }
        Ok(id)
    }

    /// A snapshot of all accounts, exactly as stored; callers must not rely
    /// on any particular order.
    pub fn get_accounts(&self) -> (r: Vec<Account>)
        ensures
            r@ == self.accounts@,
    {
        let mut out: Vec<Account> = Vec::new();
        let mut i: usize = 0;
        while i < self.accounts.len()
            invariant
                i <= self.accounts.len(),
                out@ == self.accounts@.subrange(0, i as int),
            decreases self.accounts.len() - i,
        {
            out.push(self.accounts[i].clone());
            proof {
                assert(out@ =~= self.accounts@.subrange(0, i + 1));
            }
            i += 1;
        }
        proof {
            assert(out@ =~= self.accounts@);
        }
        out
    }

    /// Updates the named account: validates the type against the closed set,
    /// refuses to deactivate an account with transaction history, and applies
    /// the changes atomically, reporting a constraint violation where the new
    /// name or parent would break the schema's uniqueness or referential
    /// rules. Returns how many records were modified; an unknown identifier
    /// modifies none and is not an error.
    #[verifier::loop_isolation(false)]
    pub fn update_account(
        &mut self,
        id: i64,
        name: String,
        account_type: &str,
        parent_id: Option<i64>,
        is_active: bool,
    ) -> (r: Result<usize, LedgerError>)
        requires
            old(self).wf(),
        ensures
            final(self).wf(),
            final(self).transactions@ == old(self).transactions@,
            final(self).next_account_id == old(self).next_account_id,
            final(self).next_transaction_id == old(self).next_transaction_id,
            spec_parse_account_type(account_type@) is None ==> r == Err::<usize, LedgerError>(
                LedgerError::InvalidAccountType,
            ) && *final(self) == *old(self),
            spec_parse_account_type(account_type@) matches Some(t) ==> {
                &&& old(self).has_history(id) && !is_active ==> r == Err::<usize, LedgerError>(
                    LedgerError::CannotDeactivateWithHistory,
                ) && *final(self) == *old(self)
                &&& !(old(self).has_history(id) && !is_active) && !old(self).has_account_id(id)
                    ==> r == Ok::<usize, LedgerError>(0) && *final(self) == *old(self)
                &&& !(old(self).has_history(id) && !is_active) && old(self).has_account_id(id)
                    && old(self).update_conflicts(id, name@, parent_id) ==> r == Err::<
                    usize,
                    LedgerError,
                >(LedgerError::ConstraintViolation) && *final(self) == *old(self)
                &&& !(old(self).has_history(id) && !is_active) && old(self).has_account_id(id)
                    && !old(self).update_conflicts(id, name@, parent_id) ==> {
                    &&& r == Ok::<usize, LedgerError>(1)
                    &&& forall|k: int|
                        0 <= k < old(self).accounts@.len() && (#[trigger] old(
                            self,
                        ).accounts@[k]).id == Some(id) ==> final(self).accounts@ == old(
                            self,
                        ).accounts@.update(
                            k,
                            (Account {
                                id: Some(id),
                                name: name,
                                account_type: t,
                                parent_id: parent_id,
                                balance: old(self).accounts@[k].balance,
                                is_active: is_active,
                            }),
                        )
                }
            },
    {
        let t = match AccountType::parse(account_type) {
            Some(t) => t,
            None => {
                return Err(LedgerError::InvalidAccountType);
            },
        };
        if self.account_has_history(id) && !is_active {
            return Err(LedgerError::CannotDeactivateWithHistory);
        }
        let k = match self.find_account_index(id) {
            Some(k) => k,
            None => {
                return Ok(0);
            },
        };
        let mut j: usize = 0;
        while j < self.accounts.len()
            invariant
                j <= self.accounts.len(),
                forall|l: int|
                    0 <= l < j ==> !((#[trigger] self.accounts@[l]).id != Some(id)
                        && self.accounts@[l].name@ == name@),
            decreases self.accounts.len() - j,
        {
            let same_id = match self.accounts[j].id {
                Some(a) => a == id,
                None => false,
            };
            if !same_id && self.accounts[j].name == name {
                return Err(LedgerError::ConstraintViolation);
            }
            j += 1;
        }
        if let Some(p) = parent_id {
            if !self.contains_account_id(p) {
                return Err(LedgerError::ConstraintViolation);
            }
        }
        let balance = self.accounts[k].balance;
        self.accounts[k] = Account {
            id: Some(id),
            name: name,
            account_type: t,
            parent_id: parent_id,
            balance: balance,
            is_active: is_active,
        };
        proof {
            let pre = *old(self);
            let post = *self;
            let ki = k as int;
            let a = post.accounts@[ki];
            assert forall|x: i64| post.has_account_id(x) == pre.has_account_id(x) by {
                lemma_update_same_id_preserves_has(pre.accounts@, ki, a, x);
            }
            // Uniqueness of the identifier pins the updated position.
            assert forall|k2: int|
                0 <= k2 < pre.accounts@.len() && (#[trigger] pre.accounts@[k2]).id == Some(id)
                implies k2 == ki by {
                if k2 != ki {
                    assert(pre.accounts@[k2].id != pre.accounts@[ki].id);
                }
            }
            // No other account carries the new name.
            assert forall|i: int, j2: int|
                0 <= i < j2 < post.accounts@.len() implies (#[trigger] post.accounts@[i]).name@
                != (#[trigger] post.accounts@[j2]).name@ by {
                if i != ki && j2 != ki {
                    assert(post.accounts@[i] == pre.accounts@[i]);
                    assert(post.accounts@[j2] == pre.accounts@[j2]);
                } else if i == ki {
                    assert(post.accounts@[j2] == pre.accounts@[j2]);
                    assert(pre.accounts@[j2].id != Some(id));
                } else {
                    assert(post.accounts@[i] == pre.accounts@[i]);
                    assert(pre.accounts@[i].id != Some(id));
                }
            }
            assert forall|i: int|
                0 <= i < post.accounts@.len() implies ((#[trigger] post.accounts@[i]).parent_id
                matches Some(p) ==> post.has_account_id(p)) by {
                if i != ki {
                    assert(post.accounts@[i] == pre.accounts@[i]);
                }
            }
            assert forall|i: int| 0 <= i < post.transactions@.len() implies {
                let t2 = #[trigger] post.transactions@[i];
                &&& t2.debit_account_id != t2.credit_account_id
                &&& post.has_account_id(t2.debit_account_id)
                &&& post.has_account_id(t2.credit_account_id)
                &&& t2.amount > 0
            } by {
                assert(pre.transactions@[i] == post.transactions@[i]);
            }
        }
        Ok(1)
    }

    /// Admits one transaction under the ledger integrity guard: the debit
    /// and credit parties must be distinct existing accounts and the amount a
    /// positive quantity; anything else is rejected before insertion and
    /// changes nothing.
    pub fn record_transaction(
        &mut self,
        date: String,
        amount: i64,
        debit_account_id: i64,
        credit_account_id: i64,
        description: Option<String>,
    ) -> (r: Result<i64, LedgerError>)
        requires
            old(self).wf(),
            old(self).next_transaction_id < i64::MAX,
        ensures
            final(self).wf(),
            final(self).accounts@ == old(self).accounts@,
            final(self).next_account_id == old(self).next_account_id,
            debit_account_id == credit_account_id ==> r == Err::<i64, LedgerError>(
                LedgerError::SelfReferentialTransaction,
            ) && *final(self) == *old(self),
            debit_account_id != credit_account_id && !(old(self).has_account_id(debit_account_id)
                && old(self).has_account_id(credit_account_id)) ==> r == Err::<i64, LedgerError>(
                LedgerError::AccountNotFound,
            ) && *final(self) == *old(self),
            debit_account_id != credit_account_id && old(self).has_account_id(debit_account_id)
                && old(self).has_account_id(credit_account_id) && amount <= 0 ==> r == Err::<
                i64,
                LedgerError,
            >(LedgerError::InvalidAmount) && *final(self) == *old(self),
            debit_account_id != credit_account_id && old(self).has_account_id(debit_account_id)
                && old(self).has_account_id(credit_account_id) && amount > 0 ==> {
                &&& r == Ok::<i64, LedgerError>(old(self).next_transaction_id)
                &&& final(self).transactions@ == old(self).transactions@.push(
                    (Transaction {
                        id: old(self).next_transaction_id,
                        date: date,
                        amount: amount,
                        debit_account_id: debit_account_id,
                        credit_account_id: credit_account_id,
                        description: description,
                    }),
                )
                &&& final(self).next_transaction_id == old(self).next_transaction_id + 1
            },
    {
        if debit_account_id == credit_account_id {
            return Err(LedgerError::SelfReferentialTransaction);
        }
        if !self.contains_account_id(debit_account_id) || !self.contains_account_id(
            credit_account_id,
        ) {
            return Err(LedgerError::AccountNotFound);
        }
        if amount <= 0 {
            return Err(LedgerError::InvalidAmount);
        }
        let id = self.next_transaction_id;
        self.transactions.push(
            Transaction {
                id: id,
                date: date,
                amount: amount,
                debit_account_id: debit_account_id,
                credit_account_id: credit_account_id,
                description: description,
            },
        );
        self.next_transaction_id = id + 1;
        Ok(id)
    }
}

/// Pushing a record onto the chart cannot remove an existing identifier.
proof fn lemma_push_preserves_has_account_id(pre: Seq<Account>, a: Account, id: i64)
    requires
        seq_has_account_id(pre, id),
    ensures
        seq_has_account_id(pre.push(a), id),
{
    let i = choose|i: int| 0 <= i < pre.len() && (#[trigger] pre[i]).id == Some(id);
    assert(pre.push(a)[i] == pre[i]);
}

/// Replacing a record by one that keeps its identifier leaves the set of
/// identifiers in the chart unchanged.
proof fn lemma_update_same_id_preserves_has(pre: Seq<Account>, k: int, a: Account, x: i64)
    requires
        0 <= k < pre.len(),
        a.id == pre[k].id,
    ensures
        seq_has_account_id(pre.update(k, a), x) == seq_has_account_id(pre, x),
{
    let post = pre.update(k, a);
    if seq_has_account_id(pre, x) {
        let i = choose|i: int| 0 <= i < pre.len() && (#[trigger] pre[i]).id == Some(x);
        if i == k {
            assert(post[k].id == Some(x));
        } else {
            assert(post[i] == pre[i]);
        }
    }
    if seq_has_account_id(post, x) {
        let i = choose|i: int| 0 <= i < post.len() && (#[trigger] post[i]).id == Some(x);
        if i == k {
            assert(pre[k].id == Some(x));
        } else {
            assert(post[i] == pre[i]);
        }
    }
}

/// Round trip: an account accepted by `create_account` and then fetched via
/// `get_accounts` appears exactly once in the fetched chart, with a zero
/// balance and the active flag set, under the name and type it was created
/// with.
pub proof fn lemma_created_account_round_trip(
    pre: Ledger,
    post: Ledger,
    name: String,
    t: AccountType,
    parent_id: Option<i64>,
    id: i64,
)
    requires
        pre.wf(),
        id == pre.next_account_id,
        post.accounts@ == pre.accounts@.push(
            (Account {
                id: Some(id),
                name: name,
                account_type: t,
                parent_id: parent_id,
                balance: 0,
                is_active: true,
            }),
        ),
    ensures
        exists|i: int|
            0 <= i < post.accounts@.len() && (#[trigger] post.accounts@[i]).id == Some(id),
        forall|i: int|
            0 <= i < post.accounts@.len() && (#[trigger] post.accounts@[i]).id == Some(id)
                ==> i == pre.accounts@.len() && post.accounts@[i].name == name
                && post.accounts@[i].account_type == t && post.accounts@[i].balance == 0
                && post.accounts@[i].is_active,
{
    let n = pre.accounts@.len() as int;
    assert(post.accounts@[n].id == Some(id));
    assert forall|i: int|
        0 <= i < post.accounts@.len() && (#[trigger] post.accounts@[i]).id == Some(id)
        implies i == n && post.accounts@[i].name == name && post.accounts@[i].account_type == t
        && post.accounts@[i].balance == 0 && post.accounts@[i].is_active by {
        if i < n {
            assert(post.accounts@[i] == pre.accounts@[i]);
        }
    }
}

} // verus!
