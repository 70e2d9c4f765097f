//! The typed header view for the recognition resource.
//!
//! Construction queries presence, reads the raw block only when present,
//! and stores the raw value as an option; defaults are substituted lazily
//! at accessor time, so "absent on the wire" stays distinguishable from
//! "had its default value".

use vstd::prelude::*;
use crate::message::{
    MrcpMessage, RecogHeader, ResourceHeader, RECOGNIZER_HEADER_NO_INPUT_TIMEOUT,
    RECOGNIZER_HEADER_RECOGNITION_TIMEOUT, RECOGNIZER_HEADER_SENSITIVITY_LEVEL,
    RECOGNIZER_HEADER_SPEECH_COMPLETE_TIMEOUT, RECOGNIZER_HEADER_START_INPUT_TIMERS,
};
use crate::section::{
    inline_mrcp_resource_header_get, inline_mrcp_resource_header_property_check,
    spec_resource_block, spec_resource_field_present,
};
use crate::vendor::{extract_vendor_specific_parameters, spec_vendor_params_of, VendorParams};

verus! {

/// IEEE-754 bit pattern of 0.32, the default sensitivity.  The sensitivity
/// travels as a floating-point value, carried throughout as its bit
/// pattern.
pub const SENSITIVITY_DEFAULT_BITS: u64 = 0x3FD4_7AE1_47AE_147B;

/// Default no-input timeout when the field is absent.
pub const NO_INPUT_TIMEOUT_DEFAULT: usize = 5000;

/// Default recognition timeout when the field is absent.
pub const RECOGNITION_TIMEOUT_DEFAULT: usize = 20000;

/// Default silence timeout when the field is absent.
pub const SILENCE_TIMEOUT_DEFAULT: usize = 1000;

/// The message's resource block read as a recognizer block: `None` when no
/// block was allocated or when the message declares another resource, in
/// which case every recognizer field is treated as absent.
pub open spec fn spec_recog_block(m: MrcpMessage) -> Option<RecogHeader> {
    match spec_resource_block(m) {
        Some(ResourceHeader::Recognizer(h)) => Some(h),
        _ => None,
    }
}

/// The raw sensitivity bits, where the field is present and the block
/// readable.
pub open spec fn spec_sensitivity_of(m: MrcpMessage) -> Option<u64> {
    if spec_resource_field_present(m, RECOGNIZER_HEADER_SENSITIVITY_LEVEL as int) {
        match spec_recog_block(m) {
            Some(h) => Some(h.sensitivity_level),
            None => None,
        }
    } else {
        None
    }
}

/// The raw no-input timeout, where the field is present and the block
/// readable.
pub open spec fn spec_noinput_timeout_of(m: MrcpMessage) -> Option<usize> {
    if spec_resource_field_present(m, RECOGNIZER_HEADER_NO_INPUT_TIMEOUT as int) {
        match spec_recog_block(m) {
            Some(h) => Some(h.no_input_timeout),
            None => None,
        }
    } else {
        None
    }
}

/// The raw recognition timeout, where the field is present and the block
/// readable.
pub open spec fn spec_recognition_timeout_of(m: MrcpMessage) -> Option<usize> {
    if spec_resource_field_present(m, RECOGNIZER_HEADER_RECOGNITION_TIMEOUT as int) {
        match spec_recog_block(m) {
            Some(h) => Some(h.recognition_timeout),
            None => None,
        }
    } else {
        None
    }
}

/// The raw start-input-timers flag, where the field is present and the
/// block readable.
pub open spec fn spec_start_input_timers_of(m: MrcpMessage) -> Option<bool> {
    if spec_resource_field_present(m, RECOGNIZER_HEADER_START_INPUT_TIMERS as int) {
        match spec_recog_block(m) {
            Some(h) => Some(h.start_input_timers),
            None => None,
        }
    } else {
        None
    }
}

/// The silence-timeout bucketing applied to the raw on-wire value: 0 and 1
/// map to 1000; 2 through 4 are scaled by 1000; 5 through 20 flatten to the
/// constant 1200 — a deliberate business rule, discontinuity included; any
/// larger value passes through unchanged.
pub open spec fn spec_bucket_silence_timeout(t: usize) -> usize {
    if t <= 1 {
        1000
    } else if t <= 4 {
        (t * 1000) as usize
    } else if t <= 20 {
        1200
    } else {
        t
    }
}

/// The silence timeout as extracted: the bucketing is applied once, at
/// extraction time, before any defaulting.
pub open spec fn spec_silence_timeout_of(m: MrcpMessage) -> Option<usize> {
    if spec_resource_field_present(m, RECOGNIZER_HEADER_SPEECH_COMPLETE_TIMEOUT as int) {
        match spec_recog_block(m) {
            Some(h) => Some(spec_bucket_silence_timeout(h.speech_complete_timeout)),
            None => None,
        }
    } else {
        None
    }
}

/// Reads the raw sensitivity bits from the message, absent on a null
/// message, an absent field or an unreadable block.
pub fn extract_sensitivity(request: Option<&MrcpMessage>) -> (r: Option<u64>)
    ensures
        match request {
            None => r is None,
            Some(m) => r == spec_sensitivity_of(*m),
        },
{
    let message = match request {
        None => { return None; },
        Some(m) => m,
    };
    if inline_mrcp_resource_header_property_check(message, RECOGNIZER_HEADER_SENSITIVITY_LEVEL) {
        match inline_mrcp_resource_header_get(message) {
            Some(block) => match block {
                ResourceHeader::Recognizer(h) => Some(h.sensitivity_level),
                _ => None,
            },
            None => None,
        }
    } else {
        None
    }
}

/// Reads the raw no-input timeout from the message.
pub fn extract_noinput_timeout(request: Option<&MrcpMessage>) -> (r: Option<usize>)
    ensures
        match request {
            None => r is None,
            Some(m) => r == spec_noinput_timeout_of(*m),
        },
{
    let message = match request {
        None => { return None; },
        Some(m) => m,
    };
    if inline_mrcp_resource_header_property_check(message, RECOGNIZER_HEADER_NO_INPUT_TIMEOUT) {
        match inline_mrcp_resource_header_get(message) {
            Some(block) => match block {
                ResourceHeader::Recognizer(h) => Some(h.no_input_timeout),
                _ => None,
            },
            None => None,
        }
    } else {
        None
    }
}

/// Reads the raw recognition timeout from the message.
pub fn extract_recognition_timeout(request: Option<&MrcpMessage>) -> (r: Option<usize>)
    ensures
        match request {
            None => r is None,
            Some(m) => r == spec_recognition_timeout_of(*m),
        },
{
    let message = match request {
        None => { return None; },
        Some(m) => m,
    };
    if inline_mrcp_resource_header_property_check(message, RECOGNIZER_HEADER_RECOGNITION_TIMEOUT) {
        match inline_mrcp_resource_header_get(message) {
            Some(block) => match block {
                ResourceHeader::Recognizer(h) => Some(h.recognition_timeout),
                _ => None,
            },
            None => None,
        }
    } else {
        None
    }
}

/// Reads the raw start-input-timers flag from the message.
pub fn extract_start_input_timers(request: Option<&MrcpMessage>) -> (r: Option<bool>)
    ensures
        match request {
            None => r is None,
            Some(m) => r == spec_start_input_timers_of(*m),
        },
{
    let message = match request {
        None => { return None; },
        Some(m) => m,
    };
    if inline_mrcp_resource_header_property_check(message, RECOGNIZER_HEADER_START_INPUT_TIMERS) {
        match inline_mrcp_resource_header_get(message) {
            Some(block) => match block {
                ResourceHeader::Recognizer(h) => Some(h.start_input_timers),
                _ => None,
            },
            None => None,
        }
    } else {
        None
    }
}

/// Reads the speech-complete timeout from the message and buckets it; the
/// bucketing is applied to the raw on-wire value, before the absent-to-
/// default rule ever applies.
pub fn extract_speech_complete_timeout(request: Option<&MrcpMessage>) -> (r: Option<usize>)
    ensures
        match request {
            None => r is None,
            Some(m) => r == spec_silence_timeout_of(*m),
        },
{
    let message = match request {
        None => { return None; },
        Some(m) => m,
    };
    if inline_mrcp_resource_header_property_check(
        message,
        RECOGNIZER_HEADER_SPEECH_COMPLETE_TIMEOUT,
    ) {
        match inline_mrcp_resource_header_get(message) {
            Some(block) => match block {
                ResourceHeader::Recognizer(h) => {
                    let t = h.speech_complete_timeout;
                    if t <= 1 {
                        Some(1000)
                    } else if t <= 4 {
                        Some(t * 1000)
                    } else if t <= 20 {
                        Some(1200)
                    } else {
                        Some(t)
                    }
                },
                _ => None,
            },
            None => None,
        }
    } else {
        None
    }
}

/// The immutable, defaulted view of a recognition request's headers.  Raw
/// extracted values are stored undefaulted; accessors substitute defaults.
#[derive(Debug)]
pub struct RecogHeaders {
    sensitivity: Option<u64>,
    noinput_timeout: Option<usize>,
    recognition_timeout: Option<usize>,
    start_input_timers: Option<bool>,
    silence_timeout: Option<usize>,
    pub vendor_specific: VendorParams,
}

impl RecogHeaders {
    /// The raw sensitivity bits as extracted, `None` where absent.
    pub closed spec fn raw_sensitivity(self) -> Option<u64> {
        self.sensitivity
    }

    /// The raw no-input timeout as extracted, `None` where absent.
    pub closed spec fn raw_noinput_timeout(self) -> Option<usize> {
        self.noinput_timeout
    }

    /// The raw recognition timeout as extracted, `None` where absent.
    pub closed spec fn raw_recognition_timeout(self) -> Option<usize> {
        self.recognition_timeout
    }

    /// The raw start-input-timers flag as extracted, `None` where absent.
    pub closed spec fn raw_start_input_timers(self) -> Option<bool> {
        self.start_input_timers
    }

    /// The bucketed silence timeout as extracted, `None` where absent.
    pub closed spec fn raw_silence_timeout(self) -> Option<usize> {
        self.silence_timeout
    }

    /// The vendor-parameter mapping the view carries.
    pub closed spec fn spec_vendor_specific(self) -> Map<Seq<char>, Seq<char>> {
        self.vendor_specific@
    }

    /// Builds the view from a possibly-null message in one synthesis step.
    pub fn new(request: Option<&MrcpMessage>) -> (r: RecogHeaders)
        ensures
            match request {
                None => r.raw_sensitivity() is None && r.raw_noinput_timeout() is None
                    && r.raw_recognition_timeout() is None && r.raw_start_input_timers() is None
                    && r.raw_silence_timeout() is None && r.spec_vendor_specific() == Map::<
                    Seq<char>,
                    Seq<char>,
                >::empty(),
                Some(m) => r.raw_sensitivity() == spec_sensitivity_of(*m)
                    && r.raw_noinput_timeout() == spec_noinput_timeout_of(*m)
                    && r.raw_recognition_timeout() == spec_recognition_timeout_of(*m)
                    && r.raw_start_input_timers() == spec_start_input_timers_of(*m)
                    && r.raw_silence_timeout() == spec_silence_timeout_of(*m)
                    && r.spec_vendor_specific() == spec_vendor_params_of(*m),
            },
    {
        RecogHeaders {
            sensitivity: extract_sensitivity(request),
            noinput_timeout: extract_noinput_timeout(request),
            recognition_timeout: extract_recognition_timeout(request),
            start_input_timers: extract_start_input_timers(request),
            silence_timeout: extract_speech_complete_timeout(request),
            vendor_specific: extract_vendor_specific_parameters(request),
        }
    }

    /// The sensitivity as IEEE-754 bits; absent defaults to the bits of
    /// 0.32.
    pub fn sensitivity(&self) -> (r: u64)
        ensures
            r == match self.raw_sensitivity() {
                Some(bits) => bits,
                None => SENSITIVITY_DEFAULT_BITS,
            },
    {
        match self.sensitivity {
            Some(bits) => bits,
            None => SENSITIVITY_DEFAULT_BITS,
        }
    }

    /// The no-input timeout; absent defaults to 5000.
    pub fn noinput_timeout(&self) -> (r: usize)
        ensures
            r == match self.raw_noinput_timeout() {
                Some(t) => t,
                None => NO_INPUT_TIMEOUT_DEFAULT,
            },
    {
        match self.noinput_timeout {
            Some(t) => t,
            None => NO_INPUT_TIMEOUT_DEFAULT,
        }
    }

    /// The recognition timeout; absent defaults to 20000.
    pub fn recognition_timeout(&self) -> (r: usize)
        ensures
            r == match self.raw_recognition_timeout() {
                Some(t) => t,
                None => RECOGNITION_TIMEOUT_DEFAULT,
            },
    {
        match self.recognition_timeout {
            Some(t) => t,
            None => RECOGNITION_TIMEOUT_DEFAULT,
        }
    }

    /// The start-input-timers flag; absent defaults to true.
    pub fn start_input_timers(&self) -> (r: bool)
        ensures
            r == match self.raw_start_input_timers() {
                Some(b) => b,
                None => true,
            },
    {
        match self.start_input_timers {
            Some(b) => b,
            None => true,
        }
    }

    /// The bucketed silence timeout; absent defaults to 1000.
    pub fn silence_timeout(&self) -> (r: usize)
        ensures
            r == match self.raw_silence_timeout() {
                Some(t) => t,
                None => SILENCE_TIMEOUT_DEFAULT,
            },
    {
        match self.silence_timeout {
            Some(t) => t,
            None => SILENCE_TIMEOUT_DEFAULT,
        }
    }
}

} // verus!
