use tracing_snapshot::EventFields;

#[test]
fn fields_start_empty() {
    let fields = EventFields::new();
    assert_eq!(fields.len(), 0);
    assert_eq!(fields.get_value(&"anything".to_string()), None);
    assert!(fields.entries().is_empty());
}

#[test]
fn fields_record_keeps_every_entry() {
    let mut fields = EventFields::new();
    fields.record("path".to_string(), "\"/users\"".to_string());
    fields.record("method".to_string(), "\"GET\"".to_string());
    fields.record("status".to_string(), "200".to_string());
    assert_eq!(fields.len(), 3);
    assert_eq!(
        fields.get_value(&"path".to_string()),
        Some(&"\"/users\"".to_string())
    );
    assert_eq!(
        fields.get_value(&"method".to_string()),
        Some(&"\"GET\"".to_string())
    );
    assert_eq!(fields.get_value(&"status".to_string()), Some(&"200".to_string()));
    assert_eq!(fields.get_value(&"missing".to_string()), None);
}

#[test]
fn fields_record_overwrites_repeated_name() {
    let mut fields = EventFields::new();
    fields.record("count".to_string(), "1".to_string());
    fields.record("count".to_string(), "2".to_string());
    assert_eq!(fields.len(), 1);
    assert_eq!(fields.get_value(&"count".to_string()), Some(&"2".to_string()));
}

#[test]
fn fields_entries_expose_recorded_pairs() {
    let mut fields = EventFields::new();
    fields.record("a".to_string(), "1".to_string());
    fields.record("b".to_string(), "2".to_string());
    let entries = fields.entries();
    assert_eq!(entries.len(), 2);
    assert!(entries.contains(&("a".to_string(), "1".to_string())));
    assert!(entries.contains(&("b".to_string(), "2".to_string())));
}

#[test]
fn fields_equality_ignores_insertion_order() {
    let mut first = EventFields::new();
    first.record("a".to_string(), "1".to_string());
    first.record("b".to_string(), "2".to_string());
    let mut second = EventFields::new();
    second.record("b".to_string(), "2".to_string());
    second.record("a".to_string(), "1".to_string());
    assert_eq!(first, second);
}

#[test]
fn fields_equality_sees_any_difference() {
    let mut base = EventFields::new();
    base.record("a".to_string(), "1".to_string());
    base.record("b".to_string(), "2".to_string());

    let mut other_value = EventFields::new();
    other_value.record("a".to_string(), "1".to_string());
    other_value.record("b".to_string(), "3".to_string());
    assert_ne!(base, other_value);

    let mut other_name = EventFields::new();
    other_name.record("a".to_string(), "1".to_string());
    other_name.record("c".to_string(), "2".to_string());
    assert_ne!(base, other_name);

    let mut fewer = EventFields::new();
    fewer.record("a".to_string(), "1".to_string());
    assert_ne!(base, fewer);
    assert_ne!(fewer, base);
}
