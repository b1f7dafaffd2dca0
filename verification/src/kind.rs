//! The closed callsite-kind enumeration, its resolution from the predicates
//! a metadata handle reports, and its conversion into the facility's native
//! kind value.

use vstd::prelude::*;

verus! {

/// What a callsite emits: a single instantaneous event, or a scoped span.
#[derive(Clone, Copy, Debug, Hash, PartialEq, Eq, Structural)]
pub enum TracingCallsiteKind {
    /// The callsite emits events.
    Event,
    /// The callsite opens spans.
    Span,
}

#[verifier::external_type_specification]
#[verifier::external_body]
pub struct ExKind(tracing_core::metadata::Kind);

/// The native kind value that stands for a given snapshot kind.
pub uninterp spec fn native_kind_of(kind: TracingCallsiteKind) -> tracing_core::metadata::Kind;

impl TracingCallsiteKind {
    /// Relies on `tracing_core::metadata::Kind`: its constants `EVENT` and
    /// `SPAN` are fixed, distinct values (distinct bits of the underlying
    /// byte), one per snapshot kind, so the mapping is unambiguous.
    #[verifier::external_body]
    pub fn to_native(&self) -> (r: tracing_core::metadata::Kind)
        ensures
            r == native_kind_of(*self),
            forall|v: TracingCallsiteKind| native_kind_of(v) == r ==> v == *self,
    {
        match self {
            TracingCallsiteKind::Event => tracing_core::metadata::Kind::EVENT,
            TracingCallsiteKind::Span => tracing_core::metadata::Kind::SPAN,
        }
    }

    /// Resolve the two predicates a metadata handle reports, asked in the
    /// order "is this an event?", then "is this a span?".  A handle that
    /// reports neither violates the facility's contract; that case yields
    /// `None`, and the caller at the facility boundary treats it as a fatal
    /// fault rather than a recoverable error.
    pub fn from_predicates(is_event: bool, is_span: bool) -> (r: Option<TracingCallsiteKind>)
        ensures
            is_event ==> r == Some(TracingCallsiteKind::Event),
            (!is_event && is_span) ==> r == Some(TracingCallsiteKind::Span),
            (!is_event && !is_span) ==> r is None,
    {
        if is_event {
            Some(TracingCallsiteKind::Event)
        } else if is_span {
            Some(TracingCallsiteKind::Span)
        } else {
            None
        }
    }
}

} // verus!
