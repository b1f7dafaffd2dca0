//! Snapshot types for structured instrumentation events.
//!
//! A live `tracing_core` event carries borrowed metadata and typed field
//! values, both scoped to the instant the event fires.  This crate turns
//! that transient data into fully owned, comparable snapshot values: a
//! [`TracingMetadata`] describing the callsite, an [`EventFields`] map of
//! debug-rendered field values, and the two closed enumerations
//! [`TracingLevel`] and [`TracingCallsiteKind`], which also convert back
//! into the facility's native types.

pub mod event;
pub mod fields;
pub mod kind;
pub mod level;
pub mod metadata;

pub use event::TracingEvent;
pub use fields::EventFields;
pub use kind::TracingCallsiteKind;
pub use level::TracingLevel;
pub use level::level_round_trip;
pub use level::native_level_round_trip;
pub use metadata::TracingMetadata;
