use curl_block::config::{read_cache_toggle, resolve_use_cache, use_cache_or_default};
use serde_json::Value;

fn object(entries: Vec<(&str, Value)>) -> Value {
    let mut map = serde_json::Map::new();
    for (key, value) in entries {
        map.insert(key.to_string(), value);
    }
    Value::Object(map)
}

#[test]
fn cache_is_used_without_a_configuration() {
    assert_eq!(read_cache_toggle(None), None);
    assert!(resolve_use_cache(None));
}

#[test]
fn cache_is_used_without_the_entry() {
    let config = object(vec![("temperature", Value::from(3))]);
    assert_eq!(read_cache_toggle(Some(&config)), None);
    assert!(resolve_use_cache(Some(&config)));
    assert!(resolve_use_cache(Some(&object(vec![]))));
}

#[test]
fn cache_is_not_used_when_the_entry_is_false() {
    let config = object(vec![("use_cache", Value::Bool(false))]);
    assert_eq!(read_cache_toggle(Some(&config)), Some(false));
    assert!(!resolve_use_cache(Some(&config)));
}

#[test]
fn cache_is_used_when_the_entry_is_true() {
    let config = object(vec![("use_cache", Value::Bool(true))]);
    assert_eq!(read_cache_toggle(Some(&config)), Some(true));
    assert!(resolve_use_cache(Some(&config)));
}

#[test]
fn cache_is_used_when_the_entry_is_no_boolean() {
    for entry in [
        Value::from("false"),
        Value::from(0),
        Value::Null,
        Value::Array(vec![Value::Bool(false)]),
        object(vec![("use_cache", Value::Bool(false))]),
    ] {
        let config = object(vec![("use_cache", entry)]);
        assert_eq!(read_cache_toggle(Some(&config)), None);
        assert!(resolve_use_cache(Some(&config)));
    }
}

#[test]
fn cache_is_used_when_the_configuration_is_no_object() {
    for config in [Value::Bool(false), Value::Null, Value::Array(vec![Value::Bool(false)])] {
        assert_eq!(read_cache_toggle(Some(&config)), None);
        assert!(resolve_use_cache(Some(&config)));
    }
}

#[test]
fn only_the_entry_named_use_cache_counts() {
    let config = object(vec![("use-cache", Value::Bool(false)), ("cache", Value::Bool(false))]);
    assert!(resolve_use_cache(Some(&config)));
}

#[test]
fn missing_toggle_defaults_to_true() {
    assert!(use_cache_or_default(None));
    assert!(use_cache_or_default(Some(true)));
    assert!(!use_cache_or_default(Some(false)));
}
