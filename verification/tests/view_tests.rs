use mrcp_headers::message::{
    AptPair, AptStr, GenericHeader, HeaderAccessor, HeaderSection, MessageHeader, MrcpMessage,
    RecogHeader, ResourceHeader, SynthHeader, GENERIC_HEADER_CONTENT_LENGTH,
    GENERIC_HEADER_COUNT, GENERIC_HEADER_VENDOR_SPECIFIC_PARAMS,
    RECOGNIZER_HEADER_NO_INPUT_TIMEOUT, RECOGNIZER_HEADER_RECOGNITION_TIMEOUT,
    RECOGNIZER_HEADER_SENSITIVITY_LEVEL, RECOGNIZER_HEADER_SPEECH_COMPLETE_TIMEOUT,
    RECOGNIZER_HEADER_START_INPUT_TIMERS, SYNTHESIZER_HEADER_VOICE_NAME,
};
use mrcp_headers::recog::RecogHeaders;
use mrcp_headers::synth::SynthHeaders;

fn span_of(bytes: &[u8]) -> AptStr {
    AptStr { buf: Some(bytes.to_vec()), length: bytes.len() }
}

fn null_span() -> AptStr {
    AptStr { buf: None, length: 0 }
}

fn empty_message() -> MrcpMessage {
    MrcpMessage {
        header: MessageHeader {
            header_section: HeaderSection {
                arr: vec![false; GENERIC_HEADER_COUNT + 16],
                generic_count: GENERIC_HEADER_COUNT,
            },
            generic_header_accessor: HeaderAccessor { data: None, vtable: None },
            resource_header_accessor: HeaderAccessor { data: None, vtable: None },
        },
        body: AptStr { buf: None, length: 0 },
    }
}

fn zero_recog_block() -> RecogHeader {
    RecogHeader {
        sensitivity_level: 0,
        no_input_timeout: 0,
        recognition_timeout: 0,
        start_input_timers: false,
        speech_complete_timeout: 0,
    }
}

fn recog_message(block: RecogHeader, present: &[usize]) -> MrcpMessage {
    let mut message = empty_message();
    for &id in present {
        message.header.header_section.arr[GENERIC_HEADER_COUNT + id] = true;
    }
    message.header.resource_header_accessor.data = Some(ResourceHeader::Recognizer(block));
    message
}

fn synth_message(voice_name: AptStr, present: &[usize]) -> MrcpMessage {
    let mut message = empty_message();
    for &id in present {
        message.header.header_section.arr[GENERIC_HEADER_COUNT + id] = true;
    }
    message.header.resource_header_accessor.data =
        Some(ResourceHeader::Synthesizer(SynthHeader { voice_name }));
    message
}

#[test]
fn recog_null_message_yields_all_defaults() {
    let h = RecogHeaders::new(None);
    assert_eq!(f64::from_bits(h.sensitivity()), 0.32);
    assert_eq!(h.noinput_timeout(), 5000);
    assert_eq!(h.recognition_timeout(), 20000);
    assert!(h.start_input_timers());
    assert_eq!(h.silence_timeout(), 1000);
    assert!(h.vendor_specific.is_empty());
}

#[test]
fn recog_absent_fields_yield_defaults_with_block_present() {
    // the block exists but no presence bit is set
    let message = recog_message(
        RecogHeader {
            sensitivity_level: 0.9f64.to_bits(),
            no_input_timeout: 1,
            recognition_timeout: 2,
            start_input_timers: false,
            speech_complete_timeout: 3,
        },
        &[],
    );
    let h = RecogHeaders::new(Some(&message));
    assert_eq!(f64::from_bits(h.sensitivity()), 0.32);
    assert_eq!(h.noinput_timeout(), 5000);
    assert_eq!(h.recognition_timeout(), 20000);
    assert!(h.start_input_timers());
    assert_eq!(h.silence_timeout(), 1000);
}

#[test]
fn recog_present_fields_are_extracted() {
    let message = recog_message(
        RecogHeader {
            sensitivity_level: 0.5f64.to_bits(),
            no_input_timeout: 7000,
            recognition_timeout: 30000,
            start_input_timers: false,
            speech_complete_timeout: 25,
        },
        &[
            RECOGNIZER_HEADER_SENSITIVITY_LEVEL,
            RECOGNIZER_HEADER_NO_INPUT_TIMEOUT,
            RECOGNIZER_HEADER_RECOGNITION_TIMEOUT,
            RECOGNIZER_HEADER_START_INPUT_TIMERS,
            RECOGNIZER_HEADER_SPEECH_COMPLETE_TIMEOUT,
        ],
    );
    let h = RecogHeaders::new(Some(&message));
    assert_eq!(f64::from_bits(h.sensitivity()), 0.5);
    assert_eq!(h.noinput_timeout(), 7000);
    assert_eq!(h.recognition_timeout(), 30000);
    assert!(!h.start_input_timers());
    assert_eq!(h.silence_timeout(), 25);
}

#[test]
fn recog_present_flag_without_block_falls_back_to_defaults() {
    let mut message = empty_message();
    message.header.header_section.arr
        [GENERIC_HEADER_COUNT + RECOGNIZER_HEADER_NO_INPUT_TIMEOUT] = true;
    let h = RecogHeaders::new(Some(&message));
    assert_eq!(h.noinput_timeout(), 5000);
}

#[test]
fn silence_timeout_bucketing_matches_the_business_rule() {
    let cases: [(usize, usize); 8] = [
        (0, 1000),
        (1, 1000),
        (2, 2000),
        (4, 4000),
        (5, 1200),
        (20, 1200),
        (21, 21),
        (1000, 1000),
    ];
    for (raw, bucketed) in cases {
        let mut block = zero_recog_block();
        block.speech_complete_timeout = raw;
        let message = recog_message(block, &[RECOGNIZER_HEADER_SPEECH_COMPLETE_TIMEOUT]);
        let h = RecogHeaders::new(Some(&message));
        assert_eq!(h.silence_timeout(), bucketed, "raw value {raw}");
    }
}

#[test]
fn recog_view_carries_vendor_parameters() {
    let mut message = recog_message(zero_recog_block(), &[]);
    message.header.header_section.arr[GENERIC_HEADER_VENDOR_SPECIFIC_PARAMS] = true;
    message.header.generic_header_accessor.data = Some(GenericHeader {
        content_length: 0,
        vendor_specific_params: vec![AptPair {
            name: span_of(b"vendor.mode"),
            value: span_of(b"fast"),
        }],
    });
    let h = RecogHeaders::new(Some(&message));
    assert_eq!(
        h.vendor_specific.get(&"vendor.mode".to_string()),
        Some(&"fast".to_string())
    );
}

#[test]
fn synth_null_message_yields_all_defaults() {
    let h = SynthHeaders::new(None);
    assert_eq!(h.content_length(), 0);
    assert_eq!(h.voice_name(), "");
    assert_eq!(h.body(), None);
    assert!(h.vendor_specific.is_empty());
}

#[test]
fn synth_present_fields_are_extracted() {
    let mut message = synth_message(span_of(b"alloy"), &[SYNTHESIZER_HEADER_VOICE_NAME]);
    message.header.header_section.arr[GENERIC_HEADER_CONTENT_LENGTH] = true;
    message.header.generic_header_accessor.data =
        Some(GenericHeader { content_length: 512, vendor_specific_params: Vec::new() });
    let h = SynthHeaders::new(Some(&message));
    assert_eq!(h.content_length(), 512);
    assert_eq!(h.voice_name(), "alloy");
}

#[test]
fn synth_undecodable_voice_name_defaults_to_empty() {
    let message = synth_message(span_of(&[0xff]), &[SYNTHESIZER_HEADER_VOICE_NAME]);
    let h = SynthHeaders::new(Some(&message));
    assert_eq!(h.voice_name(), "");
}

#[test]
fn synth_body_read_directly_from_the_span() {
    let mut message = empty_message();
    message.body = span_of(b"<speak>hi</speak>");
    let h = SynthHeaders::new(Some(&message));
    assert_eq!(h.body(), Some("<speak>hi</speak>"));
}

#[test]
fn synth_body_ignores_presence_bitmap() {
    // every presence bit clear, every block null: the body still comes
    // through, read from the span alone
    let mut message = empty_message();
    message.header.header_section.arr = vec![false; GENERIC_HEADER_COUNT + 16];
    message.body = span_of(b"raw body");
    let h = SynthHeaders::new(Some(&message));
    assert_eq!(h.body(), Some("raw body"));
    assert_eq!(h.content_length(), 0);
    assert_eq!(h.voice_name(), "");

    // and with every presence bit set but a null body span, the body is
    // absent all the same
    let mut message = empty_message();
    message.header.header_section.arr = vec![true; GENERIC_HEADER_COUNT + 16];
    message.body = null_span();
    let h = SynthHeaders::new(Some(&message));
    assert_eq!(h.body(), None);
}

#[test]
fn recog_extractors_treat_foreign_resource_block_as_absent() {
    // a synthesizer block behind recognizer presence bits: every recognizer
    // field degrades to its default
    let message = synth_message(
        span_of(b"alloy"),
        &[
            RECOGNIZER_HEADER_SENSITIVITY_LEVEL,
            RECOGNIZER_HEADER_NO_INPUT_TIMEOUT,
            RECOGNIZER_HEADER_SPEECH_COMPLETE_TIMEOUT,
        ],
    );
    let h = RecogHeaders::new(Some(&message));
    assert_eq!(f64::from_bits(h.sensitivity()), 0.32);
    assert_eq!(h.noinput_timeout(), 5000);
    assert_eq!(h.silence_timeout(), 1000);
}
