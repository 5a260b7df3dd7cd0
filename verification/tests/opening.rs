use pocket_coffer::database::Database;
use pocket_coffer::records::PasswordEntry;

fn entry(id: &str) -> PasswordEntry {
    PasswordEntry {
        id: id.to_string(),
        title: "Mail".to_string(),
        username: "a@b.com".to_string(),
        password: "x".to_string(),
        website: None,
        notes: None,
        created_at: "2024-01-01T00:00:00Z".to_string(),
        updated_at: "2024-01-01T00:00:00Z".to_string(),
    }
}

#[test]
fn a_failure_to_open_is_passed_on() {
    let failed = rusqlite::Error::InvalidQuery;
    let words = failed.to_string();
    let err = Database::from_opened(Err(failed)).err().unwrap();
    assert!(!words.is_empty());
    assert_eq!(err.to_string(), words);
}

#[test]
fn a_failure_without_words_gets_the_fallback() {
    let failed = rusqlite::Error::SqliteFailure(
        rusqlite::ffi::Error::new(rusqlite::ffi::SQLITE_CANTOPEN),
        Some(String::new()),
    );
    assert_eq!(failed.to_string(), "");
    let err = Database::from_opened(Err(failed)).err().unwrap();
    assert_eq!(err.to_string(), "database error");
}

#[test]
fn an_opened_connection_becomes_a_store_with_the_four_tables() {
    let conn = rusqlite::Connection::open_in_memory().unwrap();
    let mut db = Database::from_opened(Ok(conn)).ok().unwrap();
    assert_eq!(db.get_all_passwords().unwrap(), Vec::<PasswordEntry>::new());
    assert_eq!(db.get_all_events().unwrap().len(), 0);
    assert_eq!(db.get_all_documents().unwrap().len(), 0);
    assert_eq!(db.get_setting("k").unwrap(), None);
    db.add_password(&entry("a")).unwrap();
    assert_eq!(db.get_all_passwords().unwrap(), vec![entry("a")]);
}

#[test]
fn what_the_connection_held_stays() {
    let conn = rusqlite::Connection::open_in_memory().unwrap();
    let first = Database::from_opened(Ok(conn)).ok().unwrap();
    drop(first);
    let conn = rusqlite::Connection::open_in_memory().unwrap();
    conn.execute(pocket_coffer::schema::Statement::CreateSettings.sql(), []).unwrap();
    conn.execute(pocket_coffer::schema::Statement::PutSetting.sql(), ["theme", "dark"]).unwrap();
    let db = Database::from_opened(Ok(conn)).ok().unwrap();
    assert_eq!(db.get_setting("theme").unwrap(), Some("dark".to_string()));
    assert_eq!(db.get_all_passwords().unwrap(), Vec::<PasswordEntry>::new());
}

#[test]
fn a_connection_that_cannot_take_the_tables_gives_no_store() {
    let conn = rusqlite::Connection::open_in_memory().unwrap();
    conn.execute("CREATE VIEW events AS SELECT 1 AS id", []).unwrap();
    conn.execute("PRAGMA query_only = ON", []).unwrap();
    let err = Database::from_opened(Ok(conn)).err().unwrap();
    assert!(!err.to_string().is_empty());
}

#[test]
fn a_view_under_a_tables_name_makes_the_listing_fail() {
    let conn = rusqlite::Connection::open_in_memory().unwrap();
    conn.execute("CREATE VIEW events AS SELECT 1 AS id", []).unwrap();
    let db = Database::from_opened(Ok(conn)).ok().unwrap();
    let err = db.get_all_events().unwrap_err();
    assert!(!err.to_string().is_empty());
    assert_eq!(db.get_all_passwords().unwrap(), Vec::<PasswordEntry>::new());
}
