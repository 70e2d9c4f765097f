//! The header section model: bounds-checked presence queries over the flat
//! presence table, block accessors, and the idempotent lazy allocation of
//! header blocks.
//!
//! No query here ever fails loudly: an out-of-range field id, a null block
//! and an unregistered allocation routine all degrade to "absent" or
//! "null", leaving default substitution to the typed header views.

use vstd::prelude::*;
use crate::message::{
    AptStr, GenericHeader, GenericHeaderVtable, HeaderAccessor, HeaderSection, MrcpMessage,
    RecogHeader, ResourceHeader, ResourceHeaderVtable, SynthHeader,
};

verus! {

/// Whether a field id addresses an occupied slot of the presence table:
/// true only for an in-range id whose slot is occupied.
pub open spec fn spec_field_present(h: HeaderSection, id: int) -> bool {
    0 <= id < h.arr@.len() && h.arr@[id]
}

/// Whether the given generic field id is present on the message.
pub open spec fn spec_generic_field_present(m: MrcpMessage, id: int) -> bool {
    spec_field_present(m.header.header_section, id)
}

/// Whether the given resource-specific field id is present on the message:
/// the id is shifted past the generic range by the section's partition
/// point, so one flat table answers both ranges.
pub open spec fn spec_resource_field_present(m: MrcpMessage, id: int) -> bool {
    spec_field_present(m.header.header_section, id + m.header.header_section.generic_count)
}

/// The message's generic header block, `None` while never allocated.
pub open spec fn spec_generic_block(m: MrcpMessage) -> Option<GenericHeader> {
    m.header.generic_header_accessor.data
}

/// The message's resource-specific header block, `None` while never
/// allocated.
pub open spec fn spec_resource_block(m: MrcpMessage) -> Option<ResourceHeader> {
    m.header.resource_header_accessor.data
}

/// Presence test on the flat table, bounds-checked: any out-of-range id is
/// reported absent, never an error.
pub fn inline_apt_header_section_field_check(header: &HeaderSection, id: usize) -> (r: bool)
    ensures
        r == spec_field_present(*header, id as int),
{
    if id < header.arr.len() {
        header.arr[id]
    } else {
        false
    }
}

/// Presence test for a generic field id: delegates to the section's
/// bounds-checked field check unchanged.
pub fn inline_mrcp_generic_header_property_check(message: &MrcpMessage, id: usize) -> (r: bool)
    ensures
        r == spec_generic_field_present(*message, id as int),
{
    inline_apt_header_section_field_check(&message.header.header_section, id)
}

/// Presence test for a resource-specific field id: the id is offset by the
/// section's partition point before the bounds-checked lookup.  An offset
/// that does not fit the machine word is necessarily past the table's end,
/// hence absent.
pub fn inline_mrcp_resource_header_property_check(message: &MrcpMessage, id: usize) -> (r: bool)
    ensures
        r == spec_resource_field_present(*message, id as int),
{
    let count = message.header.header_section.generic_count;
    match id.checked_add(count) {
        Some(field_id) => inline_apt_header_section_field_check(
            &message.header.header_section,
            field_id,
        ),
        None => {
            // the offset id exceeds the machine word, so it lies past the
            // table's end, whose length is itself a machine word
            let table_len = message.header.header_section.arr.len();
            proof {
                assert(id + count > usize::MAX >= table_len);
            }
            false
        },
    }
}

/// Read access to the generic header block; `None` while never allocated,
/// which callers must treat as "every generic field absent".
pub fn inline_mrcp_generic_header_get(message: &MrcpMessage) -> (r: Option<&GenericHeader>)
    ensures
        r is Some <==> spec_generic_block(*message) is Some,
        r is Some ==> *r->0 == spec_generic_block(*message)->0,
{
    message.header.generic_header_accessor.data.as_ref()
}

/// Read access to the resource-specific header block; `None` while never
/// allocated.  The block carries the resource type the message declared,
/// and callers read it only under the matching resource.
pub fn inline_mrcp_resource_header_get(message: &MrcpMessage) -> (r: Option<&ResourceHeader>)
    ensures
        r is Some <==> spec_resource_block(*message) is Some,
        r is Some ==> *r->0 == spec_resource_block(*message)->0,
{
    message.header.resource_header_accessor.data.as_ref()
}

/// A capability-specific allocation routine: registered on an accessor's
/// vtable, it builds a fresh header block of the shape the capability
/// describes.
pub trait AllocateVtable<T>: Sized {
    /// Whether `b` is a block this routine builds.
    spec fn spec_builds(self, b: T) -> bool;

    /// Builds the routine's fresh block.
    fn allocate(&self) -> (b: T)
        ensures
            self.spec_builds(b),
    ;
}

impl AllocateVtable<GenericHeader> for GenericHeaderVtable {
    open spec fn spec_builds(self, b: GenericHeader) -> bool {
        b.content_length == 0 && b.vendor_specific_params@.len() == 0
    }

    fn allocate(&self) -> (b: GenericHeader)
        ensures
            self.spec_builds(b),
    {
        GenericHeader { content_length: 0, vendor_specific_params: Vec::new() }
    }
}

impl AllocateVtable<ResourceHeader> for ResourceHeaderVtable {
    open spec fn spec_builds(self, b: ResourceHeader) -> bool {
        match self {
            ResourceHeaderVtable::Recognizer => b matches ResourceHeader::Recognizer(h)
                && h.sensitivity_level == 0
                && h.no_input_timeout == 0
                && h.recognition_timeout == 0
                && !h.start_input_timers
                && h.speech_complete_timeout == 0,
            ResourceHeaderVtable::Synthesizer => b matches ResourceHeader::Synthesizer(h)
                && h.voice_name.buf is None
                && h.voice_name.length == 0,
        }
    }

    fn allocate(&self) -> (b: ResourceHeader)
        ensures
            self.spec_builds(b),
    {
        match self {
            ResourceHeaderVtable::Recognizer => ResourceHeader::Recognizer(
                RecogHeader {
                    sensitivity_level: 0,
                    no_input_timeout: 0,
                    recognition_timeout: 0,
                    start_input_timers: false,
                    speech_complete_timeout: 0,
                },
            ),
            ResourceHeaderVtable::Synthesizer => ResourceHeader::Synthesizer(
                SynthHeader { voice_name: AptStr { buf: None, length: 0 } },
            ),
        }
    }
}

/// How an accessor after lazy allocation relates to the accessor before:
/// an existing block is kept as it stands, an unregistered routine leaves
/// everything as it stands, and otherwise the registered routine's block
/// is memoized into the data slot.
pub open spec fn spec_lazily_allocated<T, V: AllocateVtable<T>>(
    before: HeaderAccessor<T, V>,
    after: HeaderAccessor<T, V>,
) -> bool {
    &&& after.vtable == before.vtable
    &&& before.data is Some ==> after == before
    &&& before.data is None && before.vtable is None ==> after == before
    &&& before.data is None && before.vtable is Some ==> after.data is Some
        && before.vtable->0.spec_builds(after.data->0)
}

/// Idempotent lazy allocation of an accessor's block: an existing block is
/// kept as it stands; otherwise the registered routine is invoked once and
/// its block memoized; with no routine registered nothing is allocated.
/// Returns whether a block is present afterwards.
pub fn inline_mrcp_header_allocate<T, V: AllocateVtable<T>>(
    accessor: &mut HeaderAccessor<T, V>,
) -> (present: bool)
    ensures
        present == (final(accessor).data is Some),
        spec_lazily_allocated(*old(accessor), *final(accessor)),
{
    if accessor.data.is_some() {
        return true;
    }
    match &accessor.vtable {
        None => false,
        Some(routine) => {
            let block = routine.allocate();
            accessor.data = Some(block);
            true
        },
    }
}

/// Prepares the message's generic header block through the idempotent lazy
/// allocation path; everything else on the message is left as it stands.
pub fn inline_mrcp_generic_header_prepare(message: &mut MrcpMessage) -> (present: bool)
    ensures
        present == (final(message).header.generic_header_accessor.data is Some),
        final(message).body == old(message).body,
        final(message).header.header_section == old(message).header.header_section,
        final(message).header.resource_header_accessor
            == old(message).header.resource_header_accessor,
        spec_lazily_allocated(
            old(message).header.generic_header_accessor,
            final(message).header.generic_header_accessor,
        ),
{
    inline_mrcp_header_allocate(&mut message.header.generic_header_accessor)
}

/// Prepares the message's resource-specific header block through the same
/// idempotent lazy allocation path.
pub fn inline_mrcp_resource_header_prepare(message: &mut MrcpMessage) -> (present: bool)
    ensures
        present == (final(message).header.resource_header_accessor.data is Some),
        final(message).body == old(message).body,
        final(message).header.header_section == old(message).header.header_section,
        final(message).header.generic_header_accessor
            == old(message).header.generic_header_accessor,
        spec_lazily_allocated(
            old(message).header.resource_header_accessor,
            final(message).header.resource_header_accessor,
        ),
{
    inline_mrcp_header_allocate(&mut message.header.resource_header_accessor)
}

/// Lazy allocation is idempotent: an accessor that one allocation left
/// behind passes through a second allocation unchanged.
pub proof fn lemma_allocate_idempotent<T, V: AllocateVtable<T>>(
    first: HeaderAccessor<T, V>,
    second: HeaderAccessor<T, V>,
    third: HeaderAccessor<T, V>,
)
    requires
        spec_lazily_allocated(first, second),
        spec_lazily_allocated(second, third),
    ensures
        third == second,
{
}

/// Bounds safety of presence testing: every field id at or past the
/// presence table's end is reported absent.
pub proof fn lemma_out_of_range_field_absent(h: HeaderSection, id: int)
    requires
        id >= h.arr@.len(),
    ensures
        !spec_field_present(h, id),
{
}

} // verus!
