use facturation::commands::{
    get_settings, get_theme, init_db, update_settings, update_theme, AppState,
};
use facturation::error::StoreError;

fn open_store() -> AppState {
    let conn = rusqlite::Connection::open_in_memory().unwrap();
    init_db(&conn).unwrap();
    AppState { db: Some(conn) }
}

fn pair(k: &str, v: &str) -> (String, String) {
    (k.to_string(), v.to_string())
}

#[test]
fn settings_updates_are_partial() {
    let state = open_store();
    update_settings(&state, &vec![pair("a", "1")]).unwrap();
    update_settings(&state, &vec![pair("b", "2")]).unwrap();
    let mut got = get_settings(&state).unwrap();
    got.sort();
    assert_eq!(got, vec![pair("a", "1"), pair("b", "2")]);
}

#[test]
fn settings_update_replaces_an_existing_key() {
    let state = open_store();
    update_settings(&state, &vec![pair("lang", "fr"), pair("tva", "20")]).unwrap();
    update_settings(&state, &vec![pair("lang", "ar")]).unwrap();
    let mut got = get_settings(&state).unwrap();
    got.sort();
    assert_eq!(got, vec![pair("lang", "ar"), pair("tva", "20")]);
}

#[test]
fn settings_start_empty() {
    let state = open_store();
    assert_eq!(get_settings(&state).unwrap(), vec![]);
    update_settings(&state, &vec![]).unwrap();
    assert_eq!(get_settings(&state).unwrap(), vec![]);
}

#[test]
fn theme_defaults_to_the_empty_object() {
    let state = open_store();
    let theme = get_theme(&state).unwrap();
    assert_eq!(theme.styles, serde_json::Value::Object(serde_json::Map::new()));
}

#[test]
fn theme_is_replaced_as_a_whole() {
    let state = open_store();
    let mut first = serde_json::Map::new();
    first.insert("color".to_string(), serde_json::Value::String("red".to_string()));
    first.insert("size".to_string(), serde_json::Value::from(12));
    update_theme(&state, &serde_json::Value::Object(first.clone())).unwrap();
    assert_eq!(get_theme(&state).unwrap().styles, serde_json::Value::Object(first));
    let mut second = serde_json::Map::new();
    second.insert("font".to_string(), serde_json::Value::String("serif".to_string()));
    update_theme(&state, &serde_json::Value::Object(second.clone())).unwrap();
    assert_eq!(get_theme(&state).unwrap().styles, serde_json::Value::Object(second));
}

#[test]
fn stored_theme_that_is_no_json_is_a_json_failure() {
    let state = open_store();
    state
        .db
        .as_ref()
        .unwrap()
        .execute("INSERT OR REPLACE INTO theme (id, styles) VALUES (1, '{broken')", [])
        .unwrap();
    let r = get_theme(&state);
    assert!(matches!(r, Err(StoreError::Json(_))));
    assert!(!r.unwrap_err().message().is_empty());
}

#[test]
fn settings_and_theme_without_a_connection_are_refused() {
    let state = AppState { db: None };
    assert!(matches!(get_settings(&state), Err(StoreError::DbConnection)));
    assert!(matches!(update_settings(&state, &vec![pair("a", "1")]), Err(StoreError::DbConnection)));
    assert!(matches!(get_theme(&state), Err(StoreError::DbConnection)));
    assert!(matches!(
        update_theme(&state, &serde_json::Value::Null),
        Err(StoreError::DbConnection)
    ));
}

#[test]
fn a_key_given_twice_keeps_its_last_value() {
    let state = open_store();
    update_settings(&state, &vec![pair("a", "1"), pair("b", "2"), pair("a", "3")]).unwrap();
    let mut got = get_settings(&state).unwrap();
    got.sort();
    assert_eq!(got, vec![pair("a", "3"), pair("b", "2")]);
}
