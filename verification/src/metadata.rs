//! The metadata snapshot: an owned, structural description of where and
//! what kind of event or span occurred, and its conversion from the
//! facility's borrowed metadata handle.

use vstd::prelude::*;

use crate::kind::TracingCallsiteKind;
use crate::level::TracingLevel;
use crate::level::native_level_of;

verus! {

/// Static description of a callsite, copied out of a metadata handle into
/// fully owned values: safe to keep and compare across the process
/// lifetime.
#[derive(Debug, Hash)]
pub struct TracingMetadata {
    /// The name of the span or event described by this metadata.
    pub name: String,

    /// The part of the system that the span or event that this metadata
    /// describes occurred in.
    pub target: String,

    /// The level of verbosity of the described span or event.
    pub level: TracingLevel,

    /// The name of the Rust module where the span or event occurred, or
    /// `None` if this could not be determined.
    pub module: Option<String>,

    /// The name of the source code file where the span or event occurred,
    /// or `None` if this could not be determined.
    pub file: Option<String>,

    /// The line number in the source code file where the span or event
    /// occurred, or `None` if this could not be determined.
    pub line: Option<u32>,

    /// The kind of the callsite.
    pub kind: TracingCallsiteKind,
}

/// Structural equality of two metadata snapshots, over all seven fields.
pub open spec fn metadata_matches(a: TracingMetadata, b: TracingMetadata) -> bool {
    &&& a.name@ == b.name@
    &&& a.target@ == b.target@
    &&& a.level == b.level
    &&& a.module.deep_view() == b.module.deep_view()
    &&& a.file.deep_view() == b.file.deep_view()
    &&& a.line == b.line
    &&& a.kind == b.kind
}

#[verifier::external_type_specification]
#[verifier::external_body]
pub struct ExMetadata<'a>(tracing_core::Metadata<'a>);

/// The callsite name a metadata handle reports: a plain field of the
/// handle, so a function of the handle alone.
pub uninterp spec fn name_of(metadata: tracing_core::Metadata<'_>) -> Seq<char>;

/// The target a metadata handle reports.
pub uninterp spec fn target_of(metadata: tracing_core::Metadata<'_>) -> Seq<char>;

/// The verbosity level a metadata handle reports.
pub uninterp spec fn level_of(metadata: tracing_core::Metadata<'_>) -> tracing_core::Level;

/// The source file name a metadata handle reports, or `None` if unknown.
pub uninterp spec fn file_of(metadata: tracing_core::Metadata<'_>) -> Option<Seq<char>>;

/// The source line number a metadata handle reports, or `None` if unknown.
pub uninterp spec fn line_of(metadata: tracing_core::Metadata<'_>) -> Option<u32>;

/// Whether a metadata handle reports an event callsite.
pub uninterp spec fn is_event_of(metadata: tracing_core::Metadata<'_>) -> bool;

/// Whether a metadata handle reports a span callsite.
pub uninterp spec fn is_span_of(metadata: tracing_core::Metadata<'_>) -> bool;

/// Relies on `tracing_core::Metadata::name`: returns the callsite's name,
/// a plain field read.
pub assume_specification<'a>[ tracing_core::Metadata::<'a>::name ](
    metadata: &tracing_core::Metadata<'a>,
) -> (r: &'static str)
    ensures
        r@ == name_of(*metadata),
;

/// Relies on `tracing_core::Metadata::target`: returns the part of the
/// system the callsite belongs to, a plain field read.
pub assume_specification<'a>[ tracing_core::Metadata::<'a>::target ](
    metadata: &tracing_core::Metadata<'a>,
) -> (r: &'a str)
    ensures
        r@ == target_of(*metadata),
;

/// Relies on `tracing_core::Metadata::level`: returns the callsite's
/// verbosity level, a plain field read.
pub assume_specification<'a, 'b>[ tracing_core::Metadata::<'a>::level ](
    metadata: &'b tracing_core::Metadata<'a>,
) -> (r: &'b tracing_core::Level)
    ensures
        *r == level_of(*metadata),
;

/// Relies on `tracing_core::Metadata::file`: returns the source file name,
/// or `None` if unknown, a plain field read.
pub assume_specification<'a>[ tracing_core::Metadata::<'a>::file ](
    metadata: &tracing_core::Metadata<'a>,
) -> (r: Option<&'a str>)
    ensures
        r.deep_view() == file_of(*metadata),
;

/// Relies on `tracing_core::Metadata::line`: returns the source line
/// number, or `None` if unknown, a plain field read.
pub assume_specification<'a>[ tracing_core::Metadata::<'a>::line ](
    metadata: &tracing_core::Metadata<'a>,
) -> (r: Option<u32>)
    ensures
        r == line_of(*metadata),
;

/// Relies on `tracing_core::Metadata::is_event`: whether the callsite's
/// kind has the event bit set, a one-bit test on a field.
pub assume_specification<'a>[ tracing_core::Metadata::<'a>::is_event ](
    metadata: &tracing_core::Metadata<'a>,
) -> (r: bool)
    ensures
        r == is_event_of(*metadata),
;

/// Relies on `tracing_core::Metadata::is_span`: whether the callsite's
/// kind has the span bit set, a one-bit test on a field.
pub assume_specification<'a>[ tracing_core::Metadata::<'a>::is_span ](
    metadata: &tracing_core::Metadata<'a>,
) -> (r: bool)
    ensures
        r == is_span_of(*metadata),
;

impl TracingMetadata {
    /// Assemble a metadata snapshot from the plain values read off a
    /// metadata handle.  Every attribute is kept verbatim: present exactly
    /// when the handle reported it, equal when present.  The kind resolves
    /// from the two predicates, asked in the order event-then-span; a
    /// handle reporting neither yields `None`, the one invariant violation
    /// this data model knows.
    pub fn from_parts(
        name: String,
        target: String,
        level: TracingLevel,
        module: Option<String>,
        file: Option<String>,
        line: Option<u32>,
        is_event: bool,
        is_span: bool,
    ) -> (r: Option<TracingMetadata>)
        ensures
            (is_event || is_span) <==> r is Some,
            r matches Some(m) ==> {
                &&& m.name == name
                &&& m.target == target
                &&& m.level == level
                &&& m.module == module
                &&& m.file == file
                &&& m.line == line
                &&& m.kind == (if is_event {
                    TracingCallsiteKind::Event
                } else {
                    TracingCallsiteKind::Span
                })
            },
    {
        match TracingCallsiteKind::from_predicates(is_event, is_span) {
            Some(kind) => Some(
                TracingMetadata { name, target, level, module, file, line, kind },
            ),
            None => None,
        }
    }

    /// Copy a live metadata handle into an owned snapshot: every attribute
    /// the handle reports, verbatim.  What each accessor of the handle
    /// returns is trusted; the assembly is [`TracingMetadata::from_parts`].
    /// `module` is the handle's Rust module path, which the caller reads
    /// off the same handle and passes through verbatim.  `None` means the
    /// handle reported itself as neither an event nor a span; the facility
    /// boundary treats that as a fatal fault.
    pub fn from_native(metadata: &tracing_core::Metadata<'_>, module: Option<String>) -> (r:
        Option<TracingMetadata>)
        ensures
            r is Some <==> (is_event_of(*metadata) || is_span_of(*metadata)),
            r matches Some(m) ==> {
                &&& m.name@ == name_of(*metadata)
                &&& m.target@ == target_of(*metadata)
                &&& native_level_of(m.level) == level_of(*metadata)
                &&& m.module == module
                &&& m.file.deep_view() == file_of(*metadata)
                &&& m.line == line_of(*metadata)
                &&& m.kind == (if is_event_of(*metadata) {
                    TracingCallsiteKind::Event
                } else {
                    TracingCallsiteKind::Span
                })
            },
    {
        let is_event = metadata.is_event();
        let is_span = metadata.is_span();
        let level = TracingLevel::from_native(metadata.level());
        let file = match metadata.file() {
            Some(file) => Some(file.to_owned()),
            None => None,
        };
        TracingMetadata::from_parts(
            metadata.name().to_owned(),
            metadata.target().to_owned(),
            level,
            module,
            file,
            metadata.line(),
            is_event,
            is_span,
        )
    }
}

/// Equality of two optional strings, by contents.
fn opt_string_eq(a: &Option<String>, b: &Option<String>) -> (r: bool)
    ensures
        r == (a.deep_view() == b.deep_view()),
{
    match (a, b) {
        (Some(x), Some(y)) => *x == *y,
        (None, None) => true,
        _ => false,
    }
}

impl PartialEq for TracingMetadata {
    /// Structural equality over all seven fields.
    fn eq(&self, other: &TracingMetadata) -> (r: bool) {
        self.name == other.name && self.target == other.target && self.level == other.level
            && opt_string_eq(&self.module, &other.module)
            && opt_string_eq(&self.file, &other.file) && self.line == other.line && self.kind
            == other.kind
    }
}

impl Eq for TracingMetadata {}

impl vstd::std_specs::cmp::PartialEqSpecImpl for TracingMetadata {
    open spec fn obeys_eq_spec() -> bool {
        true
    }

    open spec fn eq_spec(&self, other: &TracingMetadata) -> bool {
        metadata_matches(*self, *other)
    }
}

} // verus!
