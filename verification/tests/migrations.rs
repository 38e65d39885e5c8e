use ledger_core::errors::LedgerError;
use ledger_core::migrate::{builtin_migrations, init_db, run_migrations, Migration};
use rusqlite::Connection;

fn schema_dump(conn: &Connection) -> Vec<(String, String)> {
    let mut stmt = conn
        .prepare("SELECT name, COALESCE(sql, '') FROM sqlite_master ORDER BY name")
        .unwrap();
    stmt.query_map([], |row| Ok((row.get(0)?, row.get(1)?)))
        .unwrap()
        .collect::<Result<_, _>>()
        .unwrap()
}

fn user_version(conn: &Connection) -> i64 {
    conn.query_row("PRAGMA user_version", [], |row| row.get(0))
        .unwrap()
}

#[test]
fn test_init_db() {
    let temp_dir = tempfile::tempdir().unwrap();
    let db_path = temp_dir.path().join("test.db");

    let conn = Connection::open(&db_path).unwrap();
    run_migrations(&conn, &builtin_migrations()).unwrap();

    let mut stmt = conn
        .prepare(
            "SELECT name FROM sqlite_master WHERE type='table' AND name IN ('accounts', 'transactions', 'transaction_entries')",
        )
        .unwrap();
    let tables: Vec<String> = stmt
        .query_map([], |row| row.get(0))
        .unwrap()
        .collect::<Result<_, _>>()
        .unwrap();

    assert_eq!(tables.len(), 3);
    assert!(tables.contains(&"accounts".to_string()));
    assert!(tables.contains(&"transactions".to_string()));
    assert!(tables.contains(&"transaction_entries".to_string()));
}

#[test]
fn running_the_engine_twice_changes_nothing() {
    let conn = Connection::open_in_memory().unwrap();

    let first = init_db(&conn).unwrap();
    let schema_once = schema_dump(&conn);
    let version_once = user_version(&conn);

    let second = init_db(&conn).unwrap();
    let schema_twice = schema_dump(&conn);
    let version_twice = user_version(&conn);

    assert_eq!(first, second);
    assert_eq!(version_once, version_twice);
    assert_eq!(schema_once, schema_twice);
}

#[test]
fn engine_records_the_latest_version() {
    let conn = Connection::open_in_memory().unwrap();
    let counter = init_db(&conn).unwrap();
    assert_eq!(counter, 3);
    assert_eq!(user_version(&conn), 3);
}

#[test]
fn counter_beyond_known_list_is_left_alone() {
    let conn = Connection::open_in_memory().unwrap();
    conn.pragma_update(None, "user_version", 99).unwrap();

    let r = run_migrations(&conn, &builtin_migrations());
    assert_eq!(r, Ok(99));
    assert_eq!(user_version(&conn), 99);
    assert_eq!(schema_dump(&conn).len(), 0);
}

#[test]
fn failing_script_rolls_back_and_is_fatal() {
    let conn = Connection::open_in_memory().unwrap();

    let migrations = vec![
        Migration {
            version: 1,
            description: "good".to_string(),
            sql: "CREATE TABLE ok_table (id INTEGER PRIMARY KEY);".to_string(),
        },
        Migration {
            version: 2,
            description: "bad".to_string(),
            sql: "THIS IS NOT SQL;".to_string(),
        },
    ];

    let r = run_migrations(&conn, &migrations);
    assert_eq!(r, Err(LedgerError::MigrationFailed));
    assert_eq!(user_version(&conn), 0);
    assert!(schema_dump(&conn)
        .iter()
        .all(|(name, _)| name != "ok_table"));
}

#[test]
fn empty_migration_list_is_a_noop() {
    let conn = Connection::open_in_memory().unwrap();
    let r = run_migrations(&conn, &Vec::new());
    assert_eq!(r, Ok(0));
    assert_eq!(user_version(&conn), 0);
}
