use tracing_snapshot::EventFields;
use tracing_snapshot::TracingCallsiteKind;
use tracing_snapshot::TracingEvent;
use tracing_snapshot::TracingLevel;
use tracing_snapshot::TracingMetadata;

fn request_metadata() -> TracingMetadata {
    TracingMetadata::from_parts(
        "req_start".to_string(),
        "svc::http".to_string(),
        TracingLevel::Info,
        Some("svc::http::handler".to_string()),
        Some("handler.rs".to_string()),
        Some(42),
        true,
        false,
    )
    .expect("an event callsite resolves")
}

fn request_fields() -> EventFields {
    let mut fields = EventFields::new();
    fields.record("path".to_string(), "\"/users\"".to_string());
    fields.record("method".to_string(), "\"GET\"".to_string());
    fields
}

#[test]
fn event_snapshot_holds_metadata_and_fields() {
    let event = TracingEvent::new(request_metadata(), request_fields());
    assert_eq!(event.metadata.name, "req_start");
    assert_eq!(event.metadata.target, "svc::http");
    assert_eq!(event.metadata.level, TracingLevel::Info);
    assert_eq!(event.metadata.module, Some("svc::http::handler".to_string()));
    assert_eq!(event.metadata.file, Some("handler.rs".to_string()));
    assert_eq!(event.metadata.line, Some(42));
    assert_eq!(event.metadata.kind, TracingCallsiteKind::Event);
    assert_eq!(event.fields.len(), 2);
    assert_eq!(
        event.fields.get_value(&"path".to_string()),
        Some(&"\"/users\"".to_string())
    );
    assert_eq!(
        event.fields.get_value(&"method".to_string()),
        Some(&"\"GET\"".to_string())
    );
}

#[test]
fn event_without_fields_keeps_empty_mapping() {
    let event = TracingEvent::new(request_metadata(), EventFields::new());
    assert_eq!(event.fields.len(), 0);
    assert_eq!(event.metadata.name, "req_start");
    assert_eq!(event.metadata.level, TracingLevel::Info);
}

#[test]
fn event_equality_is_structural() {
    let event = TracingEvent::new(request_metadata(), request_fields());

    let mut reordered_fields = EventFields::new();
    reordered_fields.record("method".to_string(), "\"GET\"".to_string());
    reordered_fields.record("path".to_string(), "\"/users\"".to_string());
    let same = TracingEvent::new(request_metadata(), reordered_fields);
    assert_eq!(event, same);

    let mut other_value = request_fields();
    other_value.record("method".to_string(), "\"POST\"".to_string());
    let changed_fields = TracingEvent::new(request_metadata(), other_value);
    assert_ne!(event, changed_fields);

    let mut other_metadata = request_metadata();
    other_metadata.line = Some(7);
    let changed_metadata = TracingEvent::new(other_metadata, request_fields());
    assert_ne!(event, changed_metadata);
}
