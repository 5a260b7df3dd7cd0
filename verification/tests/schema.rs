use pocket_coffer::schema::Kind;
use pocket_coffer::schema::Query;
use pocket_coffer::schema::Statement;

#[test]
fn create_statements_have_the_schema() {
    assert_eq!(
        Statement::CreateRecords(Kind::Password).sql(),
        "CREATE TABLE IF NOT EXISTS passwords (id TEXT PRIMARY KEY, title TEXT NOT NULL, username TEXT NOT NULL, password TEXT NOT NULL, website TEXT, notes TEXT, created_at TEXT NOT NULL, updated_at TEXT NOT NULL)"
    );
    assert_eq!(
        Statement::CreateRecords(Kind::Event).sql(),
        "CREATE TABLE IF NOT EXISTS events (id TEXT PRIMARY KEY, title TEXT NOT NULL, description TEXT, start_date TEXT NOT NULL, end_date TEXT NOT NULL, location TEXT, color TEXT NOT NULL, created_at TEXT NOT NULL, updated_at TEXT NOT NULL)"
    );
    assert_eq!(
        Statement::CreateRecords(Kind::Document).sql(),
        "CREATE TABLE IF NOT EXISTS documents (id TEXT PRIMARY KEY, title TEXT NOT NULL, content TEXT NOT NULL, created_at TEXT NOT NULL, updated_at TEXT NOT NULL)"
    );
    assert_eq!(
        Statement::CreateSettings.sql(),
        "CREATE TABLE IF NOT EXISTS settings (key TEXT PRIMARY KEY, value TEXT NOT NULL)"
    );
}

#[test]
fn insert_statements_name_every_column() {
    assert_eq!(
        Statement::Insert(Kind::Password).sql(),
        "INSERT INTO passwords (id, title, username, password, website, notes, created_at, updated_at) VALUES (?1, ?2, ?3, ?4, ?5, ?6, ?7, ?8)"
    );
    assert_eq!(
        Statement::Insert(Kind::Event).sql(),
        "INSERT INTO events (id, title, description, start_date, end_date, location, color, created_at, updated_at) VALUES (?1, ?2, ?3, ?4, ?5, ?6, ?7, ?8, ?9)"
    );
    assert_eq!(
        Statement::Insert(Kind::Document).sql(),
        "INSERT INTO documents (id, title, content, created_at, updated_at) VALUES (?1, ?2, ?3, ?4, ?5)"
    );
}

#[test]
fn update_statements_set_all_but_id_and_created_at() {
    assert_eq!(
        Statement::Update(Kind::Password).sql(),
        "UPDATE passwords SET title = ?1, username = ?2, password = ?3, website = ?4, notes = ?5, updated_at = ?6 WHERE id = ?7"
    );
    assert_eq!(
        Statement::Update(Kind::Event).sql(),
        "UPDATE events SET title = ?1, description = ?2, start_date = ?3, end_date = ?4, location = ?5, color = ?6, updated_at = ?7 WHERE id = ?8"
    );
    assert_eq!(
        Statement::Update(Kind::Document).sql(),
        "UPDATE documents SET title = ?1, content = ?2, updated_at = ?3 WHERE id = ?4"
    );
}

#[test]
fn delete_statements_go_by_id() {
    assert_eq!(Statement::Delete(Kind::Password).sql(), "DELETE FROM passwords WHERE id = ?1");
    assert_eq!(Statement::Delete(Kind::Event).sql(), "DELETE FROM events WHERE id = ?1");
    assert_eq!(Statement::Delete(Kind::Document).sql(), "DELETE FROM documents WHERE id = ?1");
}

#[test]
fn setting_statements() {
    assert_eq!(
        Statement::PutSetting.sql(),
        "INSERT OR REPLACE INTO settings (key, value) VALUES (?1, ?2)"
    );
    assert_eq!(Query::GetSetting.sql(), "SELECT value FROM settings WHERE key = ?1");
}

#[test]
fn listing_queries_have_their_order() {
    assert_eq!(
        Query::List(Kind::Password).sql(),
        "SELECT id, title, username, password, website, notes, created_at, updated_at FROM passwords ORDER BY updated_at DESC"
    );
    assert_eq!(
        Query::List(Kind::Event).sql(),
        "SELECT id, title, description, start_date, end_date, location, color, created_at, updated_at FROM events ORDER BY start_date ASC"
    );
    assert_eq!(
        Query::List(Kind::Document).sql(),
        "SELECT id, title, content, created_at, updated_at FROM documents ORDER BY updated_at DESC"
    );
}

#[test]
fn no_two_statements_share_a_text() {
    let kinds = [Kind::Password, Kind::Event, Kind::Document];
    let mut texts: Vec<&str> = vec![Statement::CreateSettings.sql(), Statement::PutSetting.sql()];
    for kind in kinds {
        texts.push(Statement::CreateRecords(kind).sql());
        texts.push(Statement::Insert(kind).sql());
        texts.push(Statement::Update(kind).sql());
        texts.push(Statement::Delete(kind).sql());
    }
    assert_eq!(texts.len(), 14);
    for i in 0..texts.len() {
        for j in 0..i {
            assert_ne!(texts[i], texts[j]);
        }
    }
    let queries = [
        Query::List(Kind::Password).sql(),
        Query::List(Kind::Event).sql(),
        Query::List(Kind::Document).sql(),
        Query::GetSetting.sql(),
    ];
    for i in 0..queries.len() {
        for j in 0..i {
            assert_ne!(queries[i], queries[j]);
        }
    }
}
