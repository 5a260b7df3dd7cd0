use pocket_coffer::database::Database;
use pocket_coffer::records::PasswordEntry;

fn mail() -> PasswordEntry {
    PasswordEntry {
        id: "p1".to_string(),
        title: "Mail".to_string(),
        username: "a@b.com".to_string(),
        password: "x".to_string(),
        website: None,
        notes: None,
        created_at: "2024-01-01T00:00:00Z".to_string(),
        updated_at: "2024-01-01T00:00:00Z".to_string(),
    }
}

fn entry(id: &str, title: &str, updated_at: &str) -> PasswordEntry {
    PasswordEntry {
        id: id.to_string(),
        title: title.to_string(),
        username: "user".to_string(),
        password: "secret".to_string(),
        website: Some("https://example.org".to_string()),
        notes: Some("note".to_string()),
        created_at: "2024-01-01T00:00:00Z".to_string(),
        updated_at: updated_at.to_string(),
    }
}

#[test]
fn added_password_is_listed_then_deleted() {
    let mut db = Database::new(":memory:").unwrap();
    db.add_password(&mail()).unwrap();
    assert_eq!(db.get_all_passwords().unwrap(), vec![mail()]);
    db.delete_password("p1").unwrap();
    assert_eq!(db.get_all_passwords().unwrap(), Vec::<PasswordEntry>::new());
}

#[test]
fn new_store_lists_no_passwords() {
    let db = Database::new(":memory:").unwrap();
    assert_eq!(db.get_all_passwords().unwrap(), Vec::<PasswordEntry>::new());
}

#[test]
fn added_password_is_listed_exactly_once() {
    let mut db = Database::new(":memory:").unwrap();
    db.add_password(&entry("a", "A", "2024-01-01T00:00:00Z")).unwrap();
    db.add_password(&entry("b", "B", "2024-01-02T00:00:00Z")).unwrap();
    let added = entry("c", "C", "2024-01-03T00:00:00Z");
    db.add_password(&added).unwrap();
    let list = db.get_all_passwords().unwrap();
    assert_eq!(list.len(), 3);
    assert_eq!(list.iter().filter(|e| **e == added).count(), 1);
}

#[test]
fn optional_fields_of_a_password_come_back() {
    let mut db = Database::new(":memory:").unwrap();
    let with = entry("a", "A", "2024-01-01T00:00:00Z");
    db.add_password(&with).unwrap();
    db.add_password(&mail()).unwrap();
    let list = db.get_all_passwords().unwrap();
    let a = list.iter().find(|e| e.id == "a").unwrap();
    assert_eq!(a.website, Some("https://example.org".to_string()));
    assert_eq!(a.notes, Some("note".to_string()));
    let plain = list.iter().find(|e| e.title == "Mail").unwrap();
    assert_eq!(plain.website, None);
    assert_eq!(plain.notes, None);
}

#[test]
fn adding_a_password_twice_fails_and_changes_nothing() {
    let mut db = Database::new(":memory:").unwrap();
    db.add_password(&mail()).unwrap();
    let mut other = mail();
    other.title = "Other".to_string();
    let err = db.add_password(&other).unwrap_err();
    assert!(!err.to_string().is_empty());
    assert!(err.to_string().contains("UNIQUE"));
    assert_eq!(err.message(), err.to_string());
    assert_eq!(db.get_all_passwords().unwrap(), vec![mail()]);
}

#[test]
fn updating_an_absent_password_changes_nothing() {
    let mut db = Database::new(":memory:").unwrap();
    db.add_password(&mail()).unwrap();
    db.update_password(&entry("absent", "T", "2025-01-01T00:00:00Z")).unwrap();
    assert_eq!(db.get_all_passwords().unwrap(), vec![mail()]);
}

#[test]
fn updating_a_password_overwrites_all_but_id_and_created_at() {
    let mut db = Database::new(":memory:").unwrap();
    db.add_password(&mail()).unwrap();
    let given = PasswordEntry {
        id: "p1".to_string(),
        title: "Work mail".to_string(),
        username: "c@d.com".to_string(),
        password: "y".to_string(),
        website: Some("https://mail.example".to_string()),
        notes: Some("changed".to_string()),
        created_at: "2030-01-01T00:00:00Z".to_string(),
        updated_at: "2024-02-01T00:00:00Z".to_string(),
    };
    db.update_password(&given).unwrap();
    let mut expected = given.clone();
    expected.created_at = "2024-01-01T00:00:00Z".to_string();
    assert_eq!(db.get_all_passwords().unwrap(), vec![expected]);
}

#[test]
fn updating_a_password_can_clear_optional_fields() {
    let mut db = Database::new(":memory:").unwrap();
    db.add_password(&entry("a", "A", "2024-01-01T00:00:00Z")).unwrap();
    let mut given = entry("a", "A", "2024-01-02T00:00:00Z");
    given.website = None;
    given.notes = None;
    db.update_password(&given).unwrap();
    assert_eq!(db.get_all_passwords().unwrap(), vec![given]);
}

#[test]
fn updating_a_password_leaves_the_others() {
    let mut db = Database::new(":memory:").unwrap();
    let a = entry("a", "A", "2024-01-01T00:00:00Z");
    let b = entry("b", "B", "2024-01-02T00:00:00Z");
    db.add_password(&a).unwrap();
    db.add_password(&b).unwrap();
    let a2 = entry("a", "A2", "2024-01-03T00:00:00Z");
    db.update_password(&a2).unwrap();
    assert_eq!(db.get_all_passwords().unwrap(), vec![a2, b]);
}

#[test]
fn deleted_password_is_not_listed_and_delete_is_idempotent() {
    let mut db = Database::new(":memory:").unwrap();
    let a = entry("a", "A", "2024-01-01T00:00:00Z");
    let b = entry("b", "B", "2024-01-02T00:00:00Z");
    db.add_password(&a).unwrap();
    db.add_password(&b).unwrap();
    db.delete_password("a").unwrap();
    let once = db.get_all_passwords().unwrap();
    assert!(once.iter().all(|e| e.id != "a"));
    assert_eq!(once, vec![b.clone()]);
    db.delete_password("a").unwrap();
    assert_eq!(db.get_all_passwords().unwrap(), once);
}

#[test]
fn deleting_an_absent_password_is_no_failure() {
    let mut db = Database::new(":memory:").unwrap();
    db.delete_password("nobody").unwrap();
    assert_eq!(db.get_all_passwords().unwrap(), Vec::<PasswordEntry>::new());
}

#[test]
fn deleted_password_id_can_be_added_again() {
    let mut db = Database::new(":memory:").unwrap();
    db.add_password(&mail()).unwrap();
    db.delete_password(&mail().id).unwrap();
    db.add_password(&mail()).unwrap();
    assert_eq!(db.get_all_passwords().unwrap(), vec![mail()]);
}

#[test]
fn passwords_are_listed_latest_update_first() {
    let mut db = Database::new(":memory:").unwrap();
    db.add_password(&entry("a", "A", "2024-03-01T00:00:00Z")).unwrap();
    db.add_password(&entry("b", "B", "2024-01-01T00:00:00Z")).unwrap();
    db.add_password(&entry("c", "C", "2024-12-31T23:59:59Z")).unwrap();
    db.add_password(&entry("d", "D", "2024-02-01T00:00:00Z")).unwrap();
    let list = db.get_all_passwords().unwrap();
    let ids: Vec<&str> = list.iter().map(|e| e.id.as_str()).collect();
    assert_eq!(ids, vec!["c", "a", "d", "b"]);
    for pair in list.windows(2) {
        assert!(pair[0].updated_at >= pair[1].updated_at);
    }
}

#[test]
fn password_order_follows_an_update() {
    let mut db = Database::new(":memory:").unwrap();
    db.add_password(&entry("a", "A", "2024-01-01T00:00:00Z")).unwrap();
    db.add_password(&entry("b", "B", "2024-01-02T00:00:00Z")).unwrap();
    db.update_password(&entry("a", "A", "2024-01-03T00:00:00Z")).unwrap();
    let list = db.get_all_passwords().unwrap();
    let ids: Vec<&str> = list.iter().map(|e| e.id.as_str()).collect();
    assert_eq!(ids, vec!["a", "b"]);
}

#[test]
fn password_timestamps_are_ordered_as_text() {
    let mut db = Database::new(":memory:").unwrap();
    db.add_password(&entry("a", "A", "9")).unwrap();
    db.add_password(&entry("b", "B", "10")).unwrap();
    db.add_password(&entry("c", "C", "")).unwrap();
    db.add_password(&entry("d", "D", "1")).unwrap();
    db.add_password(&entry("e", "E", "\u{e9}")).unwrap();
    db.add_password(&entry("f", "F", "\u{1f600}")).unwrap();
    let list = db.get_all_passwords().unwrap();
    let stamps: Vec<&str> = list.iter().map(|e| e.updated_at.as_str()).collect();
    assert_eq!(stamps, vec!["\u{1f600}", "\u{e9}", "9", "10", "1", ""]);
}

#[test]
fn password_text_is_stored_as_given() {
    let mut db = Database::new(":memory:").unwrap();
    let odd = PasswordEntry {
        id: "".to_string(),
        title: "  tab\tand\nnewline ".to_string(),
        username: "o'neil; DROP TABLE passwords; --".to_string(),
        password: "\u{5bc6}\u{7801} \u{1f511}".to_string(),
        website: Some("".to_string()),
        notes: None,
        created_at: "not a date".to_string(),
        updated_at: "also not a date".to_string(),
    };
    db.add_password(&odd).unwrap();
    assert_eq!(db.get_all_passwords().unwrap(), vec![odd]);
}

#[test]
fn ids_differ_by_case_and_by_space() {
    let mut db = Database::new(":memory:").unwrap();
    db.add_password(&entry("a", "lower", "2024-01-03T00:00:00Z")).unwrap();
    db.add_password(&entry("A", "upper", "2024-01-02T00:00:00Z")).unwrap();
    db.add_password(&entry("a ", "spaced", "2024-01-01T00:00:00Z")).unwrap();
    let list = db.get_all_passwords().unwrap();
    let titles: Vec<&str> = list.iter().map(|e| e.title.as_str()).collect();
    assert_eq!(titles, vec!["lower", "upper", "spaced"]);
    db.delete_password("A").unwrap();
    assert_eq!(db.get_all_passwords().unwrap().len(), 2);
}

#[test]
fn a_returned_copy_is_not_the_stored_record() {
    let mut db = Database::new(":memory:").unwrap();
    db.add_password(&mail()).unwrap();
    let mut list = db.get_all_passwords().unwrap();
    list[0].title = "changed in memory".to_string();
    assert_eq!(db.get_all_passwords().unwrap(), vec![mail()]);
}

#[test]
fn tables_do_not_share_ids() {
    let mut db = Database::new(":memory:").unwrap();
    db.add_password(&mail()).unwrap();
    let id = mail().id;
    db.set_setting(&id, "v").unwrap();
    db.delete_event(&id).unwrap();
    db.delete_document(&id).unwrap();
    assert_eq!(db.get_all_passwords().unwrap(), vec![mail()]);
    assert_eq!(db.get_setting(&id).unwrap(), Some("v".to_string()));
}
