use pocket_coffer::database::Database;
use pocket_coffer::error::StoreError;

#[test]
fn an_error_keeps_its_message() {
    let err = StoreError::new("disk full".to_string());
    assert_eq!(err.message(), "disk full");
    assert_eq!(err.to_string(), "disk full");
}

#[test]
fn an_empty_message_is_replaced() {
    let err = StoreError::new(String::new());
    assert_eq!(err.message(), "database error");
    assert_eq!(err.to_string(), "database error");
}

#[test]
fn a_blank_message_is_kept() {
    assert_eq!(StoreError::new(" ".to_string()).to_string(), " ");
}

#[test]
fn opening_a_file_in_a_missing_directory_fails() {
    let err = Database::new("/no/such/directory/pocket_coffer.db").err().unwrap();
    assert!(!err.to_string().is_empty());
    assert_ne!(err.to_string(), "database error");
}

#[test]
fn opening_a_directory_fails() {
    let err = Database::new("/").err().unwrap();
    assert!(!err.to_string().is_empty());
}
