use nyaterm::settings::json::{json_path, JsonText, JsonValue};
use nyaterm::settings::store::{ConnectionStore, StorageError};

fn empty_store() -> ConnectionStore {
    ConnectionStore { settings: JsonValue::Object(Vec::new()), master_password: None }
}

#[test]
fn master_password_set_verifies_and_marks_the_summary() {
    let mut store = empty_store();
    assert_eq!(store.verify_master_password("anything").ok(), Some(true));
    let summary = match store.save_master_password(Some("s3cret"), Some("token".to_string())) {
        Ok(s) => s,
        Err(_) => panic!("a non-empty password is accepted"),
    };
    assert!(summary.has_master_password);
    assert_eq!(store.verify_master_password("s3cret").ok(), Some(true));
    assert_eq!(store.verify_master_password("other").ok(), Some(false));
    assert!(matches!(
        json_path(&store.settings, &["security", "master_password"]),
        Some(JsonValue::Str(JsonText { text, .. })) if text == "token"
    ));
}

#[test]
fn master_password_removed_accepts_any_and_empty_is_refused() {
    let mut store = empty_store();
    assert!(store.save_master_password(Some("pw"), Some("t".to_string())).is_ok());
    assert!(matches!(
        store.save_master_password(Some(""), Some("e".to_string())),
        Err(StorageError::InvalidData(_))
    ));
    assert_eq!(store.verify_master_password("pw").ok(), Some(true));
    assert_eq!(store.verify_master_password("").ok(), Some(false));
    let summary = match store.save_master_password(None, None) {
        Ok(s) => s,
        Err(_) => panic!("removing is accepted"),
    };
    assert!(!summary.has_master_password);
    assert_eq!(store.verify_master_password("").ok(), Some(true));
    assert!(matches!(
        json_path(&store.settings, &["security", "master_password"]),
        Some(JsonValue::Null)
    ));
}
