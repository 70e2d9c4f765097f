//! The string-span adapter: turns a length-prefixed byte span into an
//! owned text value, and the span assignment helpers of the write side.
//!
//! A span is absent when its length is zero or its buffer is null; present
//! bytes are interpreted as UTF-8, and a span that fails to decode is
//! treated as absent rather than surfaced as an error.

use vstd::prelude::*;
use vstd::slice::{slice_subrange, slice_to_vec};
use vstd::utf8::{decode_utf8, valid_utf8};
use crate::message::AptStr;

verus! {

/// The text a span stands for: `None` when the span is absent (zero length
/// or null buffer), when its declared length exceeds its backing bytes (a
/// malformed span), or when the bytes are not valid UTF-8; otherwise the
/// decoding of the byte range the span describes.
pub open spec fn spec_span_text(s: AptStr) -> Option<Seq<char>> {
    if s.length == 0 || s.buf is None {
        None
    } else if s.length > s.buf->0@.len() {
        None
    } else if valid_utf8(s.buf->0@.take(s.length as int)) {
        Some(decode_utf8(s.buf->0@.take(s.length as int)))
    } else {
        None
    }
}

/// Relies on `std::str::from_utf8`: it returns `Ok` exactly on valid UTF-8
/// input, and the resulting string slice consists of those same bytes, so
/// its characters are their decoding.
#[verifier::external_body]
fn bytes_to_str(b: &[u8]) -> (r: Option<&str>)
    ensures
        r is Some <==> valid_utf8(b@),
        r is Some ==> r->0@ == decode_utf8(b@),
{
    std::str::from_utf8(b).ok()
}

/// Converts a span into an owned text value: absent spans, malformed spans
/// and undecodable bytes all yield `None`; anything else yields the exact
/// text of the byte range `[0, length)`.
pub fn apt_str_to_string(origin: &AptStr) -> (r: Option<String>)
    ensures
        r is Some <==> spec_span_text(*origin) is Some,
        r is Some ==> r->0@ == spec_span_text(*origin)->0,
{
    match &origin.buf {
        None => None,
        Some(bytes) => {
            if origin.length == 0 || origin.length > bytes.len() {
                None
            } else {
                let prefix = slice_subrange(bytes.as_slice(), 0, origin.length);
                match bytes_to_str(prefix) {
                    Some(text) => Some(text.to_owned()),
                    None => None,
                }
            }
        },
    }
}

/// Overwrites a span with a copy of the given bytes, which stand for a
/// null-terminated source string (`None` for a null source).  An empty or
/// null source leaves the span's buffer null with length zero.
pub fn inline_apt_string_assign(s: &mut AptStr, src: &Option<Vec<u8>>)
    ensures
        final(s).length == (match *src { Some(v) => v@.len(), None => 0 }),
        (match *src { Some(v) => v@.len() == 0, None => true }) ==> final(s).buf is None,
        *src is Some && src->0@.len() > 0 ==> final(s).buf is Some
            && final(s).buf->0@ == src->0@,
{
    s.buf = None;
    s.length = match src {
        Some(v) => v.len(),
        None => 0,
    };
    if s.length > 0 {
        match src {
            Some(v) => { s.buf = Some(slice_to_vec(v.as_slice())); },
            None => {},
        }
    }
}

/// Overwrites a span to borrow the given bytes as they stand, taking their
/// length as the span's length (zero for a null source).
pub fn inline_apt_string_set(s: &mut AptStr, src: Option<Vec<u8>>)
    ensures
        final(s).buf == src,
        final(s).length == (match src { Some(v) => v@.len(), None => 0 }),
{
    match src {
        Some(v) => {
            s.length = v.len();
            s.buf = Some(v);
        },
        None => {
            s.length = 0;
            s.buf = None;
        },
    }
}

/// Overwrites a span with a copy of the first `length` bytes of the given
/// source.  A positive length demands that many bytes to copy; with length
/// zero the span's buffer is left null.
pub fn inline_apt_string_assign_n(s: &mut AptStr, src: &Option<Vec<u8>>, length: usize)
    requires
        length > 0 ==> *src is Some && length <= src->0@.len(),
    ensures
        final(s).length == length,
        length == 0 ==> final(s).buf is None,
        length > 0 ==> final(s).buf is Some
            && final(s).buf->0@ == src->0@.subrange(0, length as int),
{
    s.buf = None;
    s.length = length;
    if length > 0 {
        match src {
            Some(v) => {
                let prefix = slice_subrange(v.as_slice(), 0, length);
                s.buf = Some(slice_to_vec(prefix));
            },
            None => {},
        }
    }
}

/// Every span with zero length or a null buffer is absent: the adapter
/// yields no text for it.
pub proof fn lemma_empty_or_null_span_absent(s: AptStr)
    requires
        s.length == 0 || s.buf is None,
    ensures
        spec_span_text(s) is None,
{
}

/// Round trip on well-formed spans: for a span whose declared length lies
/// within its buffer and whose bytes decode as UTF-8, the adapter yields
/// exactly the decoding of the byte range `[0, length)`.
pub proof fn lemma_span_round_trip(s: AptStr)
    requires
        s.buf is Some,
        0 < s.length <= s.buf->0@.len(),
        valid_utf8(s.buf->0@.take(s.length as int)),
    ensures
        spec_span_text(s) == Some(decode_utf8(s.buf->0@.take(s.length as int))),
{
}

} // verus!
