use nyaterm::settings::json::{json_path, JsonNumber, JsonValue};
use nyaterm::settings::store::ConnectionStore;

fn empty_store() -> ConnectionStore {
    ConnectionStore { settings: JsonValue::Object(Vec::new()), master_password: None }
}

fn number(v: u64) -> JsonValue {
    JsonValue::Number(JsonNumber::PosInt(v))
}

fn is_number(v: Option<&JsonValue>, expected: u64) -> bool {
    matches!(v, Some(JsonValue::Number(JsonNumber::PosInt(n))) if *n == expected)
}

#[test]
fn restore_layouts_read_back_what_was_stored() {
    let mut store = empty_store();
    assert!(store.load_open_tabs().is_none());
    store.save_open_tabs(JsonValue::Array(vec![number(1), number(2)]));
    match store.load_open_tabs() {
        Some(JsonValue::Array(items)) => assert_eq!(items.len(), 2),
        _ => panic!("the tabs are stored as an array"),
    }
    store.save_terminal_window_layout(Some(number(7)));
    assert!(is_number(store.load_terminal_window_layout(), 7));
    store.save_terminal_window_layout(None);
    assert!(store.load_terminal_window_layout().is_none());
    assert!(matches!(
        json_path(&store.settings, &["ui", "terminal_window_layout"]),
        Some(JsonValue::Null)
    ));
    store.save_workspace_pane_layout(Some(number(3)));
    assert!(is_number(store.load_workspace_pane_layout(), 3));
    assert!(store.load_open_tabs().is_some());
}

#[test]
fn restore_ignores_a_stored_null() {
    let mut store = empty_store();
    store.save_open_tabs(JsonValue::Null);
    assert!(store.load_open_tabs().is_none());
    store.save_workspace_pane_layout(None);
    assert!(store.load_workspace_pane_layout().is_none());
}
