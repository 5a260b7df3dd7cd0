use pocket_coffer::database::Database;
use pocket_coffer::records::CalendarEvent;
use std::sync::Arc;
use std::sync::Mutex;

fn event(id: &str, start_date: &str) -> CalendarEvent {
    CalendarEvent {
        id: id.to_string(),
        title: "Meeting".to_string(),
        description: Some("weekly".to_string()),
        start_date: start_date.to_string(),
        end_date: "2024-12-31T00:00:00Z".to_string(),
        location: None,
        color: "#ff0000".to_string(),
        created_at: "2024-01-01T00:00:00Z".to_string(),
        updated_at: "2024-01-01T00:00:00Z".to_string(),
    }
}

#[test]
fn new_store_lists_no_events() {
    let db = Database::new(":memory:").unwrap();
    assert_eq!(db.get_all_events().unwrap(), Vec::<CalendarEvent>::new());
}

#[test]
fn added_event_is_listed_exactly_once() {
    let mut db = Database::new(":memory:").unwrap();
    let e = event("e1", "2024-05-01T09:00:00Z");
    db.add_event(&e).unwrap();
    db.add_event(&event("e2", "2024-05-02T09:00:00Z")).unwrap();
    let list = db.get_all_events().unwrap();
    assert_eq!(list.len(), 2);
    assert_eq!(list.iter().filter(|x| **x == e).count(), 1);
}

#[test]
fn adding_an_event_twice_fails_and_changes_nothing() {
    let mut db = Database::new(":memory:").unwrap();
    let e = event("e1", "2024-05-01T09:00:00Z");
    db.add_event(&e).unwrap();
    let err = db.add_event(&event("e1", "2025-01-01T00:00:00Z")).unwrap_err();
    assert!(!err.to_string().is_empty());
    assert_eq!(db.get_all_events().unwrap(), vec![e]);
}

#[test]
fn events_are_listed_earliest_start_first() {
    let mut db = Database::new(":memory:").unwrap();
    db.add_event(&event("c", "2024-09-01T00:00:00Z")).unwrap();
    db.add_event(&event("a", "2024-01-15T00:00:00Z")).unwrap();
    db.add_event(&event("d", "2025-01-01T00:00:00Z")).unwrap();
    db.add_event(&event("b", "2024-01-15T08:00:00Z")).unwrap();
    let list = db.get_all_events().unwrap();
    let ids: Vec<&str> = list.iter().map(|e| e.id.as_str()).collect();
    assert_eq!(ids, vec!["a", "b", "c", "d"]);
    for pair in list.windows(2) {
        assert!(pair[0].start_date <= pair[1].start_date);
    }
}

#[test]
fn updating_an_event_overwrites_all_but_id_and_created_at() {
    let mut db = Database::new(":memory:").unwrap();
    db.add_event(&event("e1", "2024-05-01T09:00:00Z")).unwrap();
    let given = CalendarEvent {
        id: "e1".to_string(),
        title: "Planning".to_string(),
        description: None,
        start_date: "2024-06-01T09:00:00Z".to_string(),
        end_date: "2024-06-01T10:00:00Z".to_string(),
        location: Some("Room 2".to_string()),
        color: "#00ff00".to_string(),
        created_at: "1999-01-01T00:00:00Z".to_string(),
        updated_at: "2024-05-20T00:00:00Z".to_string(),
    };
    db.update_event(&given).unwrap();
    let mut expected = given.clone();
    expected.created_at = "2024-01-01T00:00:00Z".to_string();
    assert_eq!(db.get_all_events().unwrap(), vec![expected]);
}

#[test]
fn updating_an_absent_event_changes_nothing() {
    let mut db = Database::new(":memory:").unwrap();
    let e = event("e1", "2024-05-01T09:00:00Z");
    db.add_event(&e).unwrap();
    db.update_event(&event("e2", "2024-05-02T09:00:00Z")).unwrap();
    assert_eq!(db.get_all_events().unwrap(), vec![e]);
}

#[test]
fn deleted_event_is_not_listed_and_delete_is_idempotent() {
    let mut db = Database::new(":memory:").unwrap();
    let keep = event("e2", "2024-05-02T09:00:00Z");
    db.add_event(&event("e1", "2024-05-01T09:00:00Z")).unwrap();
    db.add_event(&keep).unwrap();
    db.delete_event("e1").unwrap();
    assert_eq!(db.get_all_events().unwrap(), vec![keep.clone()]);
    db.delete_event("e1").unwrap();
    assert_eq!(db.get_all_events().unwrap(), vec![keep]);
}

#[test]
fn an_event_may_end_before_it_starts() {
    let mut db = Database::new(":memory:").unwrap();
    let mut e = event("e1", "2024-05-01T09:00:00Z");
    e.end_date = "2000-01-01T00:00:00Z".to_string();
    db.add_event(&e).unwrap();
    assert_eq!(db.get_all_events().unwrap(), vec![e]);
}

#[test]
fn two_adds_through_a_shared_lock_both_land_in_either_order() {
    let first = event("e1", "2024-05-01T09:00:00Z");
    let second = event("e2", "2024-05-02T09:00:00Z");
    for order in [[&first, &second], [&second, &first]] {
        let shared = Arc::new(Mutex::new(Database::new(":memory:").unwrap()));
        let one = Arc::clone(&shared);
        let other = Arc::clone(&shared);
        one.lock().unwrap().add_event(order[0]).unwrap();
        other.lock().unwrap().add_event(order[1]).unwrap();
        assert_eq!(
            shared.lock().unwrap().get_all_events().unwrap(),
            vec![first.clone(), second.clone()]
        );
    }
}
