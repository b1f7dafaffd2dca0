//! The closed verbosity-level enumeration and its conversions to and from
//! the instrumentation facility's native level type.

use vstd::prelude::*;

verus! {

/// Verbosity of a callsite, one variant for each of the facility's five
/// native levels, from most verbose (`Trace`) to most severe (`Error`).
#[derive(Clone, Copy, Debug, Hash, PartialEq, Eq, Structural)]
pub enum TracingLevel {
    /// The "trace" level: very low priority, often extremely verbose,
    /// information.
    Trace,
    /// The "debug" level: lower priority information.
    Debug,
    /// The "info" level: useful information.
    Info,
    /// The "warn" level: hazardous situations.
    Warn,
    /// The "error" level: very serious errors.
    Error,
}

#[verifier::external_type_specification]
#[verifier::external_body]
pub struct ExLevel(tracing_core::Level);

/// The native level that stands for a given snapshot level.  Which native
/// value that is stays unstated; the conversions below pin the mapping down
/// far enough that both round trips are provable.
pub uninterp spec fn native_level_of(level: TracingLevel) -> tracing_core::Level;

impl TracingLevel {
    /// Relies on `tracing_core::Level`: its five constants `TRACE`, `DEBUG`,
    /// `INFO`, `WARN` and `ERROR` hold the five pairwise-distinct values of
    /// the type, so each snapshot level maps to its own native level.
    #[verifier::external_body]
    pub fn to_native(&self) -> (r: tracing_core::Level)
        ensures
            r == native_level_of(*self),
            forall|v: TracingLevel| native_level_of(v) == r ==> v == *self,
    {
        match self {
            TracingLevel::Trace => tracing_core::Level::TRACE,
            TracingLevel::Debug => tracing_core::Level::DEBUG,
            TracingLevel::Info => tracing_core::Level::INFO,
            TracingLevel::Warn => tracing_core::Level::WARN,
            TracingLevel::Error => tracing_core::Level::ERROR,
        }
    }

    /// Relies on `tracing_core::Level` having no values besides the five
    /// constants matched here, each of which is the native image of exactly
    /// one snapshot level.
    #[verifier::external_body]
    pub fn from_native(level: &tracing_core::Level) -> (r: TracingLevel)
        ensures
            native_level_of(r) == *level,
    {
        match level {
            &tracing_core::Level::TRACE => TracingLevel::Trace,
            &tracing_core::Level::DEBUG => TracingLevel::Debug,
            &tracing_core::Level::INFO => TracingLevel::Info,
            &tracing_core::Level::WARN => TracingLevel::Warn,
            &tracing_core::Level::ERROR => TracingLevel::Error,
        }
    }
}

/// Converting a snapshot level to the facility's native level and back
/// yields the original variant.
pub fn level_round_trip(level: &TracingLevel) -> (r: TracingLevel)
    ensures
        r == *level,
{
    TracingLevel::from_native(&level.to_native())
}

/// Converting a native level to snapshot form and back yields the original
/// native level.
pub fn native_level_round_trip(level: &tracing_core::Level) -> (r: tracing_core::Level)
    ensures
        r == *level,
{
    TracingLevel::from_native(level).to_native()
}

} // verus!
