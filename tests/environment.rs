use application_boot::environment::{ApplicationEnvironment, PropertySource, PropertyValue};

fn source(name: &str, entries: Vec<(&str, PropertyValue)>) -> PropertySource {
    PropertySource {
        name: name.to_string(),
        entries: entries.into_iter().map(|(k, v)| (k.to_string(), v)).collect(),
    }
}

fn env(sources: Vec<PropertySource>) -> ApplicationEnvironment {
    let mut e = ApplicationEnvironment::new(vec!["default".to_string()], None, None);
    for s in sources {
        e.add_property_source(s);
    }
    e
}

#[test]
fn earlier_source_wins() {
    let e = env(vec![
        source("A", vec![("k", PropertyValue::Integer(1))]),
        source("B", vec![("k", PropertyValue::Integer(2))]),
    ]);
    assert_eq!(e.get_property::<i32>("k"), Some(1));
}

#[test]
fn missing_key_falls_through() {
    let e = env(vec![source("A", vec![]), source("B", vec![("k", PropertyValue::Integer(2))])]);
    assert_eq!(e.get_property::<i32>("k"), Some(2));
}

#[test]
fn absent_key_is_none() {
    let e = env(vec![
        source("A", vec![("k", PropertyValue::Integer(1))]),
        source("B", vec![("k", PropertyValue::Integer(2))]),
    ]);
    assert_eq!(e.get_property::<i32>("other"), None);
}

#[test]
fn wrong_type_falls_through() {
    let e = env(vec![
        source("A", vec![("k", PropertyValue::Text("x".to_string()))]),
        source("B", vec![("k", PropertyValue::Integer(2))]),
    ]);
    assert_eq!(e.get_property::<i64>("k"), Some(2));
    assert_eq!(e.get_property::<String>("k"), Some("x".to_string()));
}

#[test]
fn out_of_range_falls_through() {
    let e = env(vec![
        source("A", vec![("port", PropertyValue::Integer(70000))]),
        source("B", vec![("port", PropertyValue::Integer(8080))]),
    ]);
    assert_eq!(e.get_property::<u16>("port"), Some(8080));
    assert_eq!(e.get_property::<i64>("port"), Some(70000));
}

#[test]
fn default_when_unresolved() {
    let e = env(vec![]);
    assert_eq!(e.get_property_default::<bool>("flag", true), true);
    let e = env(vec![source("A", vec![("flag", PropertyValue::Bool(false))])]);
    assert_eq!(e.get_property_default::<bool>("flag", true), false);
}

#[test]
fn first_entry_of_a_source_is_used() {
    let s = source(
        "A",
        vec![("k", PropertyValue::Integer(5)), ("k", PropertyValue::Integer(6))],
    );
    assert_eq!(s.get_property::<i64>("k"), Some(5));
}
