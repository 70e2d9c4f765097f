//! The typed header view for the synthesis resource.
//!
//! As with the recognition view, raw extracted values are stored
//! undefaulted and defaults are substituted at accessor time.  The body is
//! special: it bypasses the presence bitmap entirely and reflects the
//! message's body span directly, absence being encoded purely by a
//! zero-length or null span.

use vstd::prelude::*;
use crate::message::{
    MrcpMessage, ResourceHeader, SynthHeader, GENERIC_HEADER_CONTENT_LENGTH,
    SYNTHESIZER_HEADER_VOICE_NAME,
};
use crate::section::{
    inline_mrcp_generic_header_get, inline_mrcp_generic_header_property_check,
    inline_mrcp_resource_header_get, inline_mrcp_resource_header_property_check,
    spec_generic_block, spec_generic_field_present, spec_resource_block,
    spec_resource_field_present,
};
use crate::span::{apt_str_to_string, spec_span_text};
use crate::vendor::{extract_vendor_specific_parameters, spec_vendor_params_of, VendorParams};

verus! {

/// The message's resource block read as a synthesizer block: `None` when no
/// block was allocated or when the message declares another resource.
pub open spec fn spec_synth_block(m: MrcpMessage) -> Option<SynthHeader> {
    match spec_resource_block(m) {
        Some(ResourceHeader::Synthesizer(h)) => Some(h),
        _ => None,
    }
}

/// The raw content length, where the field is present and the generic block
/// readable.
pub open spec fn spec_content_length_of(m: MrcpMessage) -> Option<usize> {
    if spec_generic_field_present(m, GENERIC_HEADER_CONTENT_LENGTH as int) {
        match spec_generic_block(m) {
            Some(g) => Some(g.content_length),
            None => None,
        }
    } else {
        None
    }
}

/// The raw voice name, where the field is present, the block readable and
/// its span decodable.
pub open spec fn spec_voice_name_of(m: MrcpMessage) -> Option<Seq<char>> {
    if spec_resource_field_present(m, SYNTHESIZER_HEADER_VOICE_NAME as int) {
        match spec_synth_block(m) {
            Some(h) => spec_span_text(h.voice_name),
            None => None,
        }
    } else {
        None
    }
}

/// The body text: the message's body span read directly, with no presence
/// flag consulted.
pub open spec fn spec_body_of(m: MrcpMessage) -> Option<Seq<char>> {
    spec_span_text(m.body)
}

/// Reads the raw content length from the message, absent on a null message,
/// an absent field or an unreadable block.
pub fn extract_content_length(request: Option<&MrcpMessage>) -> (r: Option<usize>)
    ensures
        match request {
            None => r is None,
            Some(m) => r == spec_content_length_of(*m),
        },
{
    let message = match request {
        None => { return None; },
        Some(m) => m,
    };
    if inline_mrcp_generic_header_property_check(message, GENERIC_HEADER_CONTENT_LENGTH) {
        match inline_mrcp_generic_header_get(message) {
            Some(g) => Some(g.content_length),
            None => None,
        }
    } else {
        None
    }
}

/// Reads the voice name from the message through the string-span adapter.
pub fn extract_voice_name(request: Option<&MrcpMessage>) -> (r: Option<String>)
    ensures
        match request {
            None => r is None,
            Some(m) => {
                &&& r is Some <==> spec_voice_name_of(*m) is Some
                &&& r is Some ==> r->0@ == spec_voice_name_of(*m)->0
            },
        },
{
    let message = match request {
        None => { return None; },
        Some(m) => m,
    };
    if inline_mrcp_resource_header_property_check(message, SYNTHESIZER_HEADER_VOICE_NAME) {
        match inline_mrcp_resource_header_get(message) {
            Some(block) => match block {
                ResourceHeader::Synthesizer(h) => apt_str_to_string(&h.voice_name),
                _ => None,
            },
            None => None,
        }
    } else {
        None
    }
}

/// Reads the body from the message's body span, unconditionally: no
/// presence flag exists for the body.
pub fn extract_body(request: Option<&MrcpMessage>) -> (r: Option<String>)
    ensures
        match request {
            None => r is None,
            Some(m) => {
                &&& r is Some <==> spec_body_of(*m) is Some
                &&& r is Some ==> r->0@ == spec_body_of(*m)->0
            },
        },
{
    let message = match request {
        None => { return None; },
        Some(m) => m,
    };
    apt_str_to_string(&message.body)
}

/// The immutable, defaulted view of a synthesis request's headers.
#[derive(Debug)]
pub struct SynthHeaders {
    content_length: Option<usize>,
    voice_name: Option<String>,
    body: Option<String>,
    pub vendor_specific: VendorParams,
}

impl SynthHeaders {
    /// The raw content length as extracted, `None` where absent.
    pub closed spec fn raw_content_length(self) -> Option<usize> {
        self.content_length
    }

    /// The raw voice name as extracted, `None` where absent.
    pub closed spec fn raw_voice_name(self) -> Option<Seq<char>> {
        match self.voice_name {
            Some(s) => Some(s@),
            None => None,
        }
    }

    /// The raw body as extracted, `None` where absent.
    pub closed spec fn raw_body(self) -> Option<Seq<char>> {
        match self.body {
            Some(s) => Some(s@),
            None => None,
        }
    }

    /// The vendor-parameter mapping the view carries.
    pub closed spec fn spec_vendor_specific(self) -> Map<Seq<char>, Seq<char>> {
        self.vendor_specific@
    }

    /// Builds the view from a possibly-null message in one synthesis step.
    pub fn new(request: Option<&MrcpMessage>) -> (r: SynthHeaders)
        ensures
            match request {
                None => r.raw_content_length() is None && r.raw_voice_name() is None
                    && r.raw_body() is None && r.spec_vendor_specific() == Map::<
                    Seq<char>,
                    Seq<char>,
                >::empty(),
                Some(m) => r.raw_content_length() == spec_content_length_of(*m)
                    && r.raw_voice_name() == spec_voice_name_of(*m)
                    && r.raw_body() == spec_body_of(*m)
                    && r.spec_vendor_specific() == spec_vendor_params_of(*m),
            },
    {
        SynthHeaders {
            content_length: extract_content_length(request),
            voice_name: extract_voice_name(request),
            body: extract_body(request),
            vendor_specific: extract_vendor_specific_parameters(request),
        }
    }

    /// The content length; absent defaults to 0.
    pub fn content_length(&self) -> (r: usize)
        ensures
            r == match self.raw_content_length() {
                Some(n) => n,
                None => 0usize,
            },
    {
        match self.content_length {
            Some(n) => n,
            None => 0,
        }
    }

    /// The voice name; absent defaults to the empty string.
    pub fn voice_name(&self) -> (r: &str)
        ensures
            r@ == match self.raw_voice_name() {
                Some(s) => s,
                None => Seq::<char>::empty(),
            },
    {
        match &self.voice_name {
            Some(voice) => voice.as_str(),
            None => {
                let empty = "";
                proof {
                    reveal_strlit("");
                    assert(empty@ =~= Seq::<char>::empty());
                }
                empty
            },
        }
    }

    /// The body, exposed as an option: no default is substituted.
    pub fn body(&self) -> (r: Option<&str>)
        ensures
            r is Some <==> self.raw_body() is Some,
            r is Some ==> r->0@ == self.raw_body()->0,
    {
        match &self.body {
            Some(text) => Some(text.as_str()),
            None => None,
        }
    }
}

/// Body extraction ignores the presence bitmap: two messages with the same
/// body span yield the same body, whatever their header sections say —
/// including when every other field is absent.
pub proof fn lemma_body_ignores_presence(a: MrcpMessage, b: MrcpMessage)
    requires
        a.body == b.body,
    ensures
        spec_body_of(a) == spec_body_of(b),
{
}

} // verus!
