//! The data carried by a protocol message, modeled as plain values.
//!
//! The transport layer delivers messages whose headers are a sparse,
//! positionally-indexed property bag: a flat presence table covering a
//! generic field range and a resource-specific field range, plus lazily
//! allocated header blocks reached through accessors.  This module holds
//! that shape as owned Rust data; the extraction logic elsewhere in the
//! crate reads it through bounds-checked queries only.

use vstd::prelude::*;

verus! {

/// Index of the content-length field within the generic header range.
pub const GENERIC_HEADER_CONTENT_LENGTH: usize = 8;

/// Index of the vendor-specific-parameters field within the generic header range.
pub const GENERIC_HEADER_VENDOR_SPECIFIC_PARAMS: usize = 11;

/// Number of generic header fields; resource-specific field ids are offset by
/// the section's own partition point, for which this is the customary value.
pub const GENERIC_HEADER_COUNT: usize = 16;

/// Index of the sensitivity-level field within the recognizer header range.
pub const RECOGNIZER_HEADER_SENSITIVITY_LEVEL: usize = 1;

/// Index of the no-input-timeout field within the recognizer header range.
pub const RECOGNIZER_HEADER_NO_INPUT_TIMEOUT: usize = 4;

/// Index of the recognition-timeout field within the recognizer header range.
pub const RECOGNIZER_HEADER_RECOGNITION_TIMEOUT: usize = 5;

/// Index of the start-input-timers field within the recognizer header range.
pub const RECOGNIZER_HEADER_START_INPUT_TIMERS: usize = 9;

/// Index of the speech-complete-timeout field within the recognizer header range.
pub const RECOGNIZER_HEADER_SPEECH_COMPLETE_TIMEOUT: usize = 10;

/// Index of the voice-name field within the synthesizer header range.
pub const SYNTHESIZER_HEADER_VOICE_NAME: usize = 8;

/// A length-prefixed, non-null-terminated byte span.
///
/// `buf` holds the pointed-to byte region, with `None` standing for a null
/// pointer; `length` is the span's declared length.  A zero length or a null
/// pointer means "absent" — never an empty-but-present string.
#[derive(Debug)]
pub struct AptStr {
    pub buf: Option<Vec<u8>>,
    pub length: usize,
}

/// One key/value pair of the vendor-specific-parameters array.
#[derive(Debug)]
pub struct AptPair {
    pub name: AptStr,
    pub value: AptStr,
}

/// The generic header block, shared by every resource type.  Only the
/// fields that this crate reads are carried.
#[derive(Debug)]
pub struct GenericHeader {
    pub content_length: usize,
    pub vendor_specific_params: Vec<AptPair>,
}

/// The recognizer resource's header block.  The sensitivity level travels
/// as a floating-point value on the wire; it is carried here as the IEEE-754
/// bit pattern of that value, since the extraction logic only stores and
/// forwards it.
#[derive(Debug)]
pub struct RecogHeader {
    pub sensitivity_level: u64,
    pub no_input_timeout: usize,
    pub recognition_timeout: usize,
    pub start_input_timers: bool,
    pub speech_complete_timeout: usize,
}

/// The synthesizer resource's header block; `voice_name` is the name field
/// of its voice parameter set.
#[derive(Debug)]
pub struct SynthHeader {
    pub voice_name: AptStr,
}

/// A resource-specific header block, keyed by the resource type that the
/// owning message declares.
#[derive(Debug)]
pub enum ResourceHeader {
    Recognizer(RecogHeader),
    Synthesizer(SynthHeader),
}

/// The allocation routine registered in the generic header accessor's
/// vtable.  There is a single such routine.
#[derive(Debug)]
pub struct GenericHeaderVtable;

/// The allocation routine registered in the resource header accessor's
/// vtable: one per resource type.
#[derive(Debug)]
pub enum ResourceHeaderVtable {
    Recognizer,
    Synthesizer,
}

/// A lazily-allocatable header block slot.  `data` is the block, `None`
/// until allocated; `vtable` is the registered allocation routine, `None`
/// when no routine (or no vtable at all) is registered.
#[derive(Debug)]
pub struct HeaderAccessor<T, V> {
    pub data: Option<T>,
    pub vtable: Option<V>,
}

/// The flat presence table of a message's header section.  A slot is `true`
/// where the field's entry is occupied.  Ids below `generic_count` address
/// generic fields; resource-specific ids are offset by `generic_count`, so
/// one table serves both ranges with a single bounds check.
#[derive(Debug)]
pub struct HeaderSection {
    pub arr: Vec<bool>,
    pub generic_count: usize,
}

/// A message's header: the presence table plus the two block accessors.
#[derive(Debug)]
pub struct MessageHeader {
    pub header_section: HeaderSection,
    pub generic_header_accessor: HeaderAccessor<GenericHeader, GenericHeaderVtable>,
    pub resource_header_accessor: HeaderAccessor<ResourceHeader, ResourceHeaderVtable>,
}

/// A protocol message, reduced to what header extraction reads: the header
/// section and the body span.
#[derive(Debug)]
pub struct MrcpMessage {
    pub header: MessageHeader,
    pub body: AptStr,
}

} // verus!
