use mrcp_headers::message::AptStr;
use mrcp_headers::span::{
    apt_str_to_string, inline_apt_string_assign, inline_apt_string_assign_n,
    inline_apt_string_set,
};

fn span_of(bytes: &[u8]) -> AptStr {
    AptStr { buf: Some(bytes.to_vec()), length: bytes.len() }
}

fn null_span() -> AptStr {
    AptStr { buf: None, length: 0 }
}

#[test]
fn adapter_absent_on_zero_length() {
    let s = AptStr { buf: Some(b"payload".to_vec()), length: 0 };
    assert_eq!(apt_str_to_string(&s), None);
}

#[test]
fn adapter_absent_on_null_pointer() {
    let s = AptStr { buf: None, length: 12 };
    assert_eq!(apt_str_to_string(&s), None);
    assert_eq!(apt_str_to_string(&null_span()), None);
}

#[test]
fn adapter_round_trip_exact_substring() {
    let s = span_of(b"hello");
    assert_eq!(apt_str_to_string(&s), Some("hello".to_string()));
}

#[test]
fn adapter_reads_only_declared_length() {
    let s = AptStr { buf: Some(b"hello world".to_vec()), length: 5 };
    assert_eq!(apt_str_to_string(&s), Some("hello".to_string()));
}

#[test]
fn adapter_handles_multibyte_utf8() {
    let text = "na\u{ef}ve caf\u{e9}";
    let s = span_of(text.as_bytes());
    assert_eq!(apt_str_to_string(&s), Some(text.to_string()));
}

#[test]
fn adapter_absent_on_invalid_utf8() {
    let s = span_of(&[0xff, 0xfe, 0x61]);
    assert_eq!(apt_str_to_string(&s), None);
}

#[test]
fn adapter_absent_on_truncated_utf8() {
    // the first two bytes of a three-byte encoding
    let s = span_of(&[0xe2, 0x82]);
    assert_eq!(apt_str_to_string(&s), None);
}

#[test]
fn adapter_absent_on_overlong_declared_length() {
    let s = AptStr { buf: Some(b"abc".to_vec()), length: 7 };
    assert_eq!(apt_str_to_string(&s), None);
}

#[test]
fn string_assign_copies_source() {
    let mut s = null_span();
    inline_apt_string_assign(&mut s, &Some(b"codec".to_vec()));
    assert_eq!(s.length, 5);
    assert_eq!(s.buf, Some(b"codec".to_vec()));
}

#[test]
fn string_assign_null_or_empty_leaves_null() {
    let mut s = span_of(b"old");
    inline_apt_string_assign(&mut s, &None);
    assert_eq!(s.length, 0);
    assert_eq!(s.buf, None);

    let mut s = span_of(b"old");
    inline_apt_string_assign(&mut s, &Some(Vec::new()));
    assert_eq!(s.length, 0);
    assert_eq!(s.buf, None);
}

#[test]
fn string_set_stores_source_as_it_stands() {
    let mut s = null_span();
    inline_apt_string_set(&mut s, Some(b"voice".to_vec()));
    assert_eq!(s.length, 5);
    assert_eq!(s.buf, Some(b"voice".to_vec()));

    let mut s = span_of(b"old");
    inline_apt_string_set(&mut s, None);
    assert_eq!(s.length, 0);
    assert_eq!(s.buf, None);

    // an empty-but-present source keeps its buffer, unlike assignment
    let mut s = null_span();
    inline_apt_string_set(&mut s, Some(Vec::new()));
    assert_eq!(s.length, 0);
    assert_eq!(s.buf, Some(Vec::new()));
}

#[test]
fn string_assign_n_copies_prefix() {
    let mut s = null_span();
    inline_apt_string_assign_n(&mut s, &Some(b"hello world".to_vec()), 5);
    assert_eq!(s.length, 5);
    assert_eq!(s.buf, Some(b"hello".to_vec()));
}

#[test]
fn string_assign_n_zero_length_leaves_null() {
    let mut s = span_of(b"old");
    inline_apt_string_assign_n(&mut s, &None, 0);
    assert_eq!(s.length, 0);
    assert_eq!(s.buf, None);
}
