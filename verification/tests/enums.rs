use tracing_core::Level;
use tracing_core::metadata::Kind;
use tracing_snapshot::TracingCallsiteKind;
use tracing_snapshot::TracingLevel;
use tracing_snapshot::level_round_trip;
use tracing_snapshot::native_level_round_trip;

#[test]
fn level_to_native_maps_each_variant() {
    assert_eq!(TracingLevel::Trace.to_native(), Level::TRACE);
    assert_eq!(TracingLevel::Debug.to_native(), Level::DEBUG);
    assert_eq!(TracingLevel::Info.to_native(), Level::INFO);
    assert_eq!(TracingLevel::Warn.to_native(), Level::WARN);
    assert_eq!(TracingLevel::Error.to_native(), Level::ERROR);
}

#[test]
fn level_from_native_maps_each_level() {
    assert_eq!(TracingLevel::from_native(&Level::TRACE), TracingLevel::Trace);
    assert_eq!(TracingLevel::from_native(&Level::DEBUG), TracingLevel::Debug);
    assert_eq!(TracingLevel::from_native(&Level::INFO), TracingLevel::Info);
    assert_eq!(TracingLevel::from_native(&Level::WARN), TracingLevel::Warn);
    assert_eq!(TracingLevel::from_native(&Level::ERROR), TracingLevel::Error);
}

#[test]
fn level_round_trip_through_native() {
    let levels = [
        TracingLevel::Trace,
        TracingLevel::Debug,
        TracingLevel::Info,
        TracingLevel::Warn,
        TracingLevel::Error,
    ];
    for level in levels {
        assert_eq!(level_round_trip(&level), level);
        assert_eq!(TracingLevel::from_native(&level.to_native()), level);
    }
}

#[test]
fn native_level_round_trip_through_snapshot() {
    let levels = [Level::TRACE, Level::DEBUG, Level::INFO, Level::WARN, Level::ERROR];
    for level in levels {
        assert_eq!(native_level_round_trip(&level), level);
        assert_eq!(TracingLevel::from_native(&level).to_native(), level);
    }
}

#[test]
fn kind_to_native_maps_both_variants() {
    assert_eq!(TracingCallsiteKind::Event.to_native(), Kind::EVENT);
    assert_eq!(TracingCallsiteKind::Span.to_native(), Kind::SPAN);
    assert!(TracingCallsiteKind::Event.to_native().is_event());
    assert!(!TracingCallsiteKind::Event.to_native().is_span());
    assert!(TracingCallsiteKind::Span.to_native().is_span());
    assert!(!TracingCallsiteKind::Span.to_native().is_event());
}

#[test]
fn kind_from_predicates_resolves_event_first() {
    assert_eq!(
        TracingCallsiteKind::from_predicates(true, false),
        Some(TracingCallsiteKind::Event)
    );
    assert_eq!(
        TracingCallsiteKind::from_predicates(true, true),
        Some(TracingCallsiteKind::Event)
    );
    assert_eq!(
        TracingCallsiteKind::from_predicates(false, true),
        Some(TracingCallsiteKind::Span)
    );
    assert_eq!(TracingCallsiteKind::from_predicates(false, false), None);
}
