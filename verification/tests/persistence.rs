use pocket_coffer::database::Database;
use pocket_coffer::records::PasswordEntry;

fn entry(id: &str) -> PasswordEntry {
    PasswordEntry {
        id: id.to_string(),
        title: "Mail".to_string(),
        username: "a@b.com".to_string(),
        password: "x".to_string(),
        website: None,
        notes: Some("kept".to_string()),
        created_at: "2024-01-01T00:00:00Z".to_string(),
        updated_at: "2024-01-01T00:00:00Z".to_string(),
    }
}

fn emptied(path: &str) -> Database {
    let mut db = Database::new(path).unwrap();
    for e in db.get_all_passwords().unwrap() {
        db.delete_password(&e.id).unwrap();
    }
    db
}

#[test]
fn a_file_keeps_its_rows_when_opened_again() {
    let path = "/tmp/pocket_coffer_keeps_rows.db";
    let mut db = emptied(path);
    db.add_password(&entry("pw1")).unwrap();
    db.set_setting("theme", "dark").unwrap();
    drop(db);
    let again = Database::new(path).unwrap();
    assert_eq!(again.get_all_passwords().unwrap(), vec![entry("pw1")]);
    assert_eq!(again.get_setting("theme").unwrap(), Some("dark".to_string()));
    drop(again);
    drop(emptied(path));
}

#[test]
fn opening_twice_creates_the_tables_once() {
    let path = "/tmp/pocket_coffer_opened_twice.db";
    drop(emptied(path));
    drop(Database::new(path).unwrap());
    let mut db = Database::new(path).unwrap();
    assert_eq!(db.get_all_passwords().unwrap(), Vec::<PasswordEntry>::new());
    db.add_password(&entry("pw1")).unwrap();
    assert!(db.add_password(&entry("pw1")).is_err());
    drop(db);
    drop(emptied(path));
}

#[test]
fn two_stores_in_memory_are_apart() {
    let mut one = Database::new(":memory:").unwrap();
    let two = Database::new(":memory:").unwrap();
    one.add_password(&entry("pw1")).unwrap();
    assert_eq!(two.get_all_passwords().unwrap(), Vec::<PasswordEntry>::new());
}
