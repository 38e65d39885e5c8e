//! The schema migration engine: an ordered list of versioned schema
//! changes, applied exactly once each, tracked by a monotonically
//! increasing version counter persisted in the database itself.

use vstd::prelude::*;

use crate::errors::LedgerError;
use crate::gateway;

verus! {

/// One versioned schema change: a strictly increasing version number, a
/// human-readable description, and the schema script to run.
pub struct Migration {
    pub version: i64,
    pub description: String,
    pub sql: String,
}

/// The migration list is ordered by strictly increasing version numbers.
pub open spec fn versions_ascending(ms: Seq<Migration>) -> bool {
    forall|i: int, j: int|
        0 <= i < j < ms.len() ==> (#[trigger] ms[i]).version < (#[trigger] ms[j]).version
}

/// Whether migration `i` is pending at counter value `v`: its version
/// exceeds what the store has already recorded.
pub open spec fn is_pending(ms: Seq<Migration>, v: int, i: int) -> bool {
    0 <= i < ms.len() && ms[i].version > v
}

/// The scripts one engine run executes, in order: those of every pending
/// migration, each at most once.
pub open spec fn pending_scripts(ms: Seq<Migration>, v: int) -> Seq<Seq<char>>
    decreases ms.len(),
{
    if ms.len() == 0 {
        Seq::empty()
    } else {
        let rest = pending_scripts(ms.drop_first(), v);
        if ms[0].version > v {
            seq![ms[0].sql@] + rest
        } else {
            rest
        }
    }
}

/// The counter value one engine run leaves behind: each applied migration
/// raises it to that migration's version; a counter already beyond the list
/// is left untouched.
pub open spec fn counter_after(ms: Seq<Migration>, v: int) -> int
    decreases ms.len(),
{
    if ms.len() == 0 {
        v
    } else {
        let v1 = if ms[0].version > v {
            ms[0].version as int
        } else {
            v
        };
        counter_after(ms.drop_first(), v1)
    }
}

/// The schema changes this build knows, oldest first. The first brings up
/// the tables of the persisted layout, the second its uniqueness and
/// referential indexes, the third the secondary index on transaction dates.
/// The contract pins every script and description, so what `init_db` hands
/// the engine is exactly what is stated here.
pub fn builtin_migrations() -> (r: Vec<Migration>)
    ensures
        versions_ascending(r@),
        r@.len() == 3,
        forall|i: int| 0 <= i < r@.len() ==> (#[trigger] r@[i]).version == i + 1,
        r@[0].description@ == "Initial database schema"@,
        r@[0].sql@ == "CREATE TABLE IF NOT EXISTS accounts (\n    id INTEGER PRIMARY KEY AUTOINCREMENT,\n    name TEXT NOT NULL UNIQUE,\n    type TEXT NOT NULL CHECK (type IN ('Asset','Liability','Equity','Income','Expense')),\n    parent_id INTEGER,\n    balance INTEGER NOT NULL DEFAULT 0,\n    is_active BOOLEAN NOT NULL DEFAULT 1,\n    FOREIGN KEY (parent_id) REFERENCES accounts(id)\n);\nCREATE TABLE IF NOT EXISTS transactions (\n    id INTEGER PRIMARY KEY AUTOINCREMENT,\n    date TEXT NOT NULL,\n    amount INTEGER NOT NULL CHECK (amount > 0),\n    debit_account_id INTEGER NOT NULL,\n    credit_account_id INTEGER NOT NULL,\n    description TEXT,\n    FOREIGN KEY (debit_account_id) REFERENCES accounts(id),\n    FOREIGN KEY (credit_account_id) REFERENCES accounts(id),\n    CHECK (debit_account_id != credit_account_id)\n);\nCREATE TABLE IF NOT EXISTS transaction_entries (\n    id INTEGER PRIMARY KEY AUTOINCREMENT,\n    transaction_id INTEGER NOT NULL,\n    account_id INTEGER NOT NULL,\n    amount INTEGER NOT NULL,\n    FOREIGN KEY (transaction_id) REFERENCES transactions(id),\n    FOREIGN KEY (account_id) REFERENCES accounts(id)\n);"@,
        r@[1].description@ == "Uniqueness and referential indexes"@,
        r@[1].sql@ == "CREATE UNIQUE INDEX IF NOT EXISTS idx_accounts_name ON accounts(name);\nCREATE INDEX IF NOT EXISTS idx_transactions_debit ON transactions(debit_account_id);\nCREATE INDEX IF NOT EXISTS idx_transactions_credit ON transactions(credit_account_id);"@,
        r@[2].description@ == "Performance index on transaction dates"@,
        r@[2].sql@ == "CREATE INDEX IF NOT EXISTS idx_transactions_date ON transactions(date);"@,
{
    let mut v: Vec<Migration> = Vec::new();
    v.push(
        Migration {
            version: 1,
            description: "Initial database schema".to_owned(),
            sql: "CREATE TABLE IF NOT EXISTS accounts (\n    id INTEGER PRIMARY KEY AUTOINCREMENT,\n    name TEXT NOT NULL UNIQUE,\n    type TEXT NOT NULL CHECK (type IN ('Asset','Liability','Equity','Income','Expense')),\n    parent_id INTEGER,\n    balance INTEGER NOT NULL DEFAULT 0,\n    is_active BOOLEAN NOT NULL DEFAULT 1,\n    FOREIGN KEY (parent_id) REFERENCES accounts(id)\n);\nCREATE TABLE IF NOT EXISTS transactions (\n    id INTEGER PRIMARY KEY AUTOINCREMENT,\n    date TEXT NOT NULL,\n    amount INTEGER NOT NULL CHECK (amount > 0),\n    debit_account_id INTEGER NOT NULL,\n    credit_account_id INTEGER NOT NULL,\n    description TEXT,\n    FOREIGN KEY (debit_account_id) REFERENCES accounts(id),\n    FOREIGN KEY (credit_account_id) REFERENCES accounts(id),\n    CHECK (debit_account_id != credit_account_id)\n);\nCREATE TABLE IF NOT EXISTS transaction_entries (\n    id INTEGER PRIMARY KEY AUTOINCREMENT,\n    transaction_id INTEGER NOT NULL,\n    account_id INTEGER NOT NULL,\n    amount INTEGER NOT NULL,\n    FOREIGN KEY (transaction_id) REFERENCES transactions(id),\n    FOREIGN KEY (account_id) REFERENCES accounts(id)\n);".to_owned(),
        },
    );
    v.push(
        Migration {
            version: 2,
            description: "Uniqueness and referential indexes".to_owned(),
            sql: "CREATE UNIQUE INDEX IF NOT EXISTS idx_accounts_name ON accounts(name);\nCREATE INDEX IF NOT EXISTS idx_transactions_debit ON transactions(debit_account_id);\nCREATE INDEX IF NOT EXISTS idx_transactions_credit ON transactions(credit_account_id);".to_owned(),
        },
    );
    v.push(
        Migration {
            version: 3,
            description: "Performance index on transaction dates".to_owned(),
            sql: "CREATE INDEX IF NOT EXISTS idx_transactions_date ON transactions(date);".to_owned(),
        },
    );
    v
}

/// Applies every migration whose version exceeds the persisted counter, in
/// ascending order, inside one transaction; records the new counter value
/// and commits, or rolls the whole run back on the first failing script.
/// Returns the counter the store is left with, which is at or beyond every
/// version in the list. Re-invocation after a successful run applies
/// nothing.
#[verifier::loop_isolation(false)]
pub fn run_migrations(conn: &rusqlite::Connection, migrations: &Vec<Migration>) -> (r: Result<
    i64,
    LedgerError,
>)
    requires
        versions_ascending(migrations@),
    ensures
        r matches Err(e) ==> e == LedgerError::Storage || e == LedgerError::MigrationFailed,
        r matches Ok(c) ==> forall|i: int|
            0 <= i < migrations@.len() ==> c >= (#[trigger] migrations@[i]).version,
{
    let current = match gateway::query_user_version(conn) {
        Ok(v) => v,
        Err(_) => {
            return Err(LedgerError::Storage);
        },
    };
    let start = first_pending(migrations, current);
    if start == migrations.len() {
        proof {
            assert forall|i: int|
                0 <= i < migrations@.len() implies current >= (#[trigger] migrations@[i]).version by {
                assert(!is_pending(migrations@, current as int, i));
            }
        }
        return Ok(current);
    }
    if gateway::exec_batch(conn, "BEGIN").is_err() {
        return Err(LedgerError::Storage);
    }
    let mut i: usize = start;
    while i < migrations.len()
        invariant
            start <= i <= migrations.len(),
        decreases migrations.len() - i,
    {
        if gateway::exec_batch(conn, migrations[i].sql.as_str()).is_err() {
            let _ = gateway::exec_batch(conn, "ROLLBACK");
            return Err(LedgerError::MigrationFailed);
        }
        i += 1;
    }
    let last = migrations[migrations.len() - 1].version;
    if gateway::set_user_version(conn, last).is_err() {
        let _ = gateway::exec_batch(conn, "ROLLBACK");
        return Err(LedgerError::Storage);
    }
    if gateway::exec_batch(conn, "COMMIT").is_err() {
        let _ = gateway::exec_batch(conn, "ROLLBACK");
        return Err(LedgerError::Storage);
    }
    Ok(last)
}

/// The engine's decision of what one run applies: in an ordered list the
/// pending migrations are exactly the suffix starting at the returned
/// position, and everything before it is already satisfied.
#[verifier::loop_isolation(false)]
fn first_pending(migrations: &Vec<Migration>, current: i64) -> (r: usize)
    requires
        versions_ascending(migrations@),
    ensures
        r <= migrations@.len(),
        forall|i: int| 0 <= i < r ==> !is_pending(migrations@, current as int, i),
        forall|i: int| r <= i < migrations@.len() ==> is_pending(migrations@, current as int, i),
{
    let mut start: usize = 0;
    while start < migrations.len() && migrations[start].version <= current
        invariant
            start <= migrations.len(),
            forall|i: int| 0 <= i < start ==> (#[trigger] migrations@[i]).version <= current,
        decreases migrations.len() - start,
    {
        start += 1;
    }
    start
}

/// Brings a fresh or stale database to the latest schema this build knows:
/// enables referential integrity enforcement, then runs the engine over the
/// built-in migration list. Fatal at startup on failure.
pub fn init_db(conn: &rusqlite::Connection) -> (r: Result<i64, LedgerError>)
    ensures
        r matches Err(e) ==> e == LedgerError::Storage || e == LedgerError::MigrationFailed,
        r matches Ok(c) ==> c >= 3,
{
    if gateway::exec_batch(conn, "PRAGMA foreign_keys = ON;").is_err() {
        return Err(LedgerError::Storage);
    }
    let migrations = builtin_migrations();
    let r = run_migrations(conn, &migrations);
    proof {
        assert(migrations@[2].version == 3);
    }
    r
}

/// One engine run never lowers the counter, and leaves it at or beyond every
/// version in the list.
pub proof fn lemma_counter_after_bounds(ms: Seq<Migration>, v: int)
    ensures
        counter_after(ms, v) >= v,
        forall|i: int| 0 <= i < ms.len() ==> counter_after(ms, v) >= (#[trigger] ms[i]).version,
    decreases ms.len(),
{
    if ms.len() > 0 {
        let v1 = if ms[0].version > v {
            ms[0].version as int
        } else {
            v
        };
        lemma_counter_after_bounds(ms.drop_first(), v1);
        assert forall|i: int|
            0 <= i < ms.len() implies counter_after(ms, v) >= (#[trigger] ms[i]).version by {
            if i > 0 {
                assert(ms.drop_first()[i - 1] == ms[i]);
            }
        }
    }
}

/// A counter at or beyond every version leaves a run with nothing to do:
/// no script is executed and the counter is unchanged.
pub proof fn lemma_run_at_counter_is_noop(ms: Seq<Migration>, v: int)
    requires
        forall|i: int| 0 <= i < ms.len() ==> (#[trigger] ms[i]).version <= v,
    ensures
        counter_after(ms, v) == v,
        pending_scripts(ms, v) == Seq::<Seq<char>>::empty(),
    decreases ms.len(),
{
    if ms.len() > 0 {
        assert forall|i: int|
            0 <= i < ms.drop_first().len() implies (#[trigger] ms.drop_first()[i]).version
            <= v by {
            assert(ms.drop_first()[i] == ms[i + 1]);
        }
        lemma_run_at_counter_is_noop(ms.drop_first(), v);
    }
}

/// Idempotence of the engine: a second run over the same migration list,
/// starting from the counter the first run left behind, executes no script
/// and leaves the counter unchanged — so running the engine twice produces
/// the same final schema and version counter as running it once.
pub proof fn lemma_engine_idempotent(ms: Seq<Migration>, v: int)
    ensures
        forall|i: int| !is_pending(ms, counter_after(ms, v), i),
        pending_scripts(ms, counter_after(ms, v)) == Seq::<Seq<char>>::empty(),
        counter_after(ms, counter_after(ms, v)) == counter_after(ms, v),
{
    lemma_counter_after_bounds(ms, v);
    lemma_run_at_counter_is_noop(ms, counter_after(ms, v));
}

} // verus!
