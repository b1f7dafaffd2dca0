//! The event snapshot: one fired event, as a fully owned, serializable
//! record of its metadata and its debug-rendered fields.

use vstd::prelude::*;

use crate::fields::EventFields;
use crate::metadata::TracingMetadata;
use crate::metadata::metadata_matches;

verus! {

/// The record of one instrumentation event: the callsite's metadata
/// snapshot, and the event's fields flattened to text.  Constructed once
/// when the event fires; an independent value with no reference back to the
/// facility.
#[derive(Debug)]
pub struct TracingEvent {
    /// The snapshot of the callsite's metadata.
    pub metadata: TracingMetadata,

    /// The event's fields: each declared name, mapped to the
    /// debug-rendered text of the value it carried.
    pub fields: EventFields,
}

/// Structural equality of two event snapshots: matching metadata, and the
/// same field mapping.
pub open spec fn event_matches(a: TracingEvent, b: TracingEvent) -> bool {
    &&& metadata_matches(a.metadata, b.metadata)
    &&& a.fields@ == b.fields@
}

impl TracingEvent {
    /// Compose a snapshot out of its two parts, both kept verbatim.  The
    /// parts are read off the live event at the facility boundary: the
    /// metadata through [`TracingMetadata::from_native`], the fields by the
    /// visitor the facility drives once per field.
    pub fn new(metadata: TracingMetadata, fields: EventFields) -> (r: TracingEvent)
        ensures
            r.metadata == metadata,
            r.fields == fields,
    {
        TracingEvent { metadata, fields }
    }
}

/// Structural equality, one way: two snapshots built from identical
/// metadata and identical field contents are equal.
pub proof fn lemma_equal_content_gives_equal_snapshots(a: TracingEvent, b: TracingEvent)
    requires
        metadata_matches(a.metadata, b.metadata),
        a.fields@ == b.fields@,
    ensures
        event_matches(a, b),
{
}

/// Structural equality, the other way: a difference in any one field's
/// recorded value breaks equality, however alike the rest may be.
pub proof fn lemma_field_change_breaks_equality(a: TracingEvent, b: TracingEvent, name: Seq<char>)
    requires
        a.fields@.dom().contains(name),
        b.fields@.dom().contains(name),
        a.fields@[name] != b.fields@[name],
    ensures
        !event_matches(a, b),
{
}

/// A difference in any one metadata attribute breaks equality as well.
pub proof fn lemma_metadata_change_breaks_equality(a: TracingEvent, b: TracingEvent)
    requires
        !metadata_matches(a.metadata, b.metadata),
    ensures
        !event_matches(a, b),
{
}

impl PartialEq for TracingEvent {
    /// Structural equality: metadata and all field entries match.
    fn eq(&self, other: &TracingEvent) -> (r: bool) {
        self.metadata == other.metadata && self.fields == other.fields
    }
}

impl Eq for TracingEvent {}

impl vstd::std_specs::cmp::PartialEqSpecImpl for TracingEvent {
    open spec fn obeys_eq_spec() -> bool {
        true
    }

    open spec fn eq_spec(&self, other: &TracingEvent) -> bool {
        event_matches(*self, *other)
    }
}

} // verus!
