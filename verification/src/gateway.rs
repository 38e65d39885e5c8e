//! The persistence gateway: the boundary to the SQLite storage engine.
//!
//! Every call into `rusqlite` goes through one of the trusted wrappers
//! here. What a query returns depends on what is on disk, so the wrappers
//! promise nothing about the values that come back; the verified callers
//! state what holds of every outcome and decide from the returned values.

use vstd::prelude::*;

verus! {

#[verifier::external_type_specification]
#[verifier::external_body]
pub struct ExConnection(rusqlite::Connection);

#[verifier::external_type_specification]
#[verifier::external_body]
pub struct ExSqlError(rusqlite::Error);

/// A raw account record as the store hands it out: identifier, name, type
/// label, parent identifier, balance in minor units, and the active flag as
/// the stored integer.
pub type AccountRow = (i64, String, String, Option<i64>, i64, i64);

/// Relies on rusqlite::Connection::execute_batch: runs the statements of
/// `sql` against the store and reports any failure.
#[verifier::external_body]
pub(crate) fn exec_batch(conn: &rusqlite::Connection, sql: &str) -> (r: Result<
    (),
    rusqlite::Error,
>) {
    conn.execute_batch(sql)
}

/// Relies on rusqlite::Connection::query_row: reads SQLite's persisted
/// schema version counter (`PRAGMA user_version`); its value depends on
/// what is on disk, so nothing is promised of it.
#[verifier::external_body]
pub(crate) fn query_user_version(conn: &rusqlite::Connection) -> (r: Result<
    i64,
    rusqlite::Error,
>) {
    conn.query_row("PRAGMA user_version", [], |row| row.get(0))
}

/// Relies on rusqlite::Connection::pragma_update: durably records `v` as
/// the schema version counter (`PRAGMA user_version`).
#[verifier::external_body]
pub(crate) fn set_user_version(conn: &rusqlite::Connection, v: i64) -> (r: Result<
    (),
    rusqlite::Error,
>) {
    conn.pragma_update(None, "user_version", v)
}

/// Relies on rusqlite::Connection::query_row: runs an existence query with
/// one integer parameter and hands back the boolean of its single row.
#[verifier::external_body]
pub(crate) fn query_exists_i64(conn: &rusqlite::Connection, sql: &str, p: i64) -> (r: Result<
    bool,
    rusqlite::Error,
>) {
    conn.query_row(sql, [p], |row| row.get(0))
}

/// Relies on rusqlite::Connection::query_row: runs an existence query with
/// one text parameter and hands back the boolean of its single row.
#[verifier::external_body]
pub(crate) fn query_exists_str(conn: &rusqlite::Connection, sql: &str, p: &str) -> (r: Result<
    bool,
    rusqlite::Error,
>) {
    conn.query_row(sql, [p], |row| row.get(0))
}

/// Relies on rusqlite::Connection::query_row: runs an existence query with
/// two integer parameters and hands back the boolean of its single row.
#[verifier::external_body]
pub(crate) fn query_exists_i64_pair(conn: &rusqlite::Connection, sql: &str, a: i64, b: i64) -> (r:
    Result<bool, rusqlite::Error>) {
    conn.query_row(sql, [a, b], |row| row.get(0))
}

/// Relies on rusqlite::Connection::execute: runs an insertion statement
/// with text, text and optional-integer parameters, returning how many rows
/// the storage engine reports changed.
#[verifier::external_body]
pub(crate) fn exec_insert_account(
    conn: &rusqlite::Connection,
    sql: &str,
    name: &str,
    type_label: &str,
    parent_id: Option<i64>,
) -> (r: Result<usize, rusqlite::Error>) {
    conn.execute(sql, (name, type_label, parent_id))
}

/// Relies on rusqlite::Connection::execute: runs an update statement with
/// text, text, optional-integer, boolean and integer parameters, returning
/// how many rows the storage engine reports changed.
#[verifier::external_body]
pub(crate) fn exec_update_account(
    conn: &rusqlite::Connection,
    sql: &str,
    name: &str,
    type_label: &str,
    parent_id: Option<i64>,
    is_active: bool,
    id: i64,
) -> (r: Result<usize, rusqlite::Error>) {
    conn.execute(sql, (name, type_label, parent_id, is_active, id))
}

/// Relies on rusqlite::Connection::last_insert_rowid: the rowid of the most
/// recent successful insertion on this connection.
#[verifier::external_body]
pub(crate) fn last_insert_rowid(conn: &rusqlite::Connection) -> (r: i64) {
    conn.last_insert_rowid()
}

/// Relies on rusqlite::Statement::query_map (through Connection::prepare):
/// reads every row the query returns, as plain values in column order.
#[verifier::external_body]
pub(crate) fn query_account_rows(conn: &rusqlite::Connection, sql: &str) -> (r: Result<
    Vec<AccountRow>,
    rusqlite::Error,
>) {
    let mut stmt = conn.prepare(sql)?;
    let rows = stmt.query_map(
        [],
        |row| Ok((row.get(0)?, row.get(1)?, row.get(2)?, row.get(3)?, row.get(4)?, row.get(5)?)),
    )?;
    rows.collect()
}

} // verus!
