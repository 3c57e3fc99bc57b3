//! The compute side of the source client: scheme classification, proxy
//! routing, charset selection and body decoding. The network call itself
//! lives outside the library and hands in the raw status, headers and bytes.

use vstd::prelude::*;
use vstd::utf8::{decode_utf8, valid_utf8};
use crate::chars::{chars_of, chars_eq_str, contains_seq, str_contains, subvec};
use crate::errors::FetchError;

verus! {

/// One unit of fetched content, normalized to text.
#[derive(Debug, Clone)]
pub struct Payload {
    pub content: String,
    pub source: String,
    pub content_type: String,
    pub date: Option<String>,
}

/// The address families a source address can fall into.
#[derive(Debug, Clone, Copy, PartialEq, Eq, Structural)]
pub enum SchemeKind {
    /// An http or https address.
    Http,
    /// A file address.
    File,
    /// Anything else; such an address is rejected.
    Unsupported,
}

/// Which family an address belongs to, judged by its first four characters.
pub open spec fn scheme_of(s: Seq<char>) -> SchemeKind {
    if s.len() >= 4 && s.take(4) == "http"@ {
        SchemeKind::Http
    } else if s.len() >= 4 && s.take(4) == "file"@ {
        SchemeKind::File
    } else {
        SchemeKind::Unsupported
    }
}

/// Classifies a source address by its scheme prefix.
pub fn classify_scheme(source: &str) -> (r: SchemeKind)
    ensures
        r == scheme_of(source@),
{
    let cs = chars_of(source);
    if cs.len() < 4 {
        return SchemeKind::Unsupported;
    }
    let head = subvec(&cs, 0, 4);
    proof {
        assert(head@ == source@.take(4));
    }
    if chars_eq_str(&head, "http") {
        SchemeKind::Http
    } else if chars_eq_str(&head, "file") {
        SchemeKind::File
    } else {
        SchemeKind::Unsupported
    }
}

/// The content type names one of the legacy-charset markers, so the body is
/// decoded as Big5 rather than UTF-8.
pub open spec fn is_legacy_charset(ct: Seq<char>) -> bool {
    contains_seq(ct, "ms950"@) || contains_seq(ct, "big5"@) || contains_seq(ct, "csv"@)
}

/// Decides whether a content type calls for the legacy Big5 decoding.
pub fn legacy_charset(content_type: &str) -> (r: bool)
    ensures
        r == is_legacy_charset(content_type@),
{
    str_contains(content_type, "ms950") || str_contains(content_type, "big5") || str_contains(
        content_type,
        "csv",
    )
}

/// The two exchange hosts are reached directly; everything else goes through
/// the outbound proxy.
pub open spec fn bypasses_proxy(url: Seq<char>) -> bool {
    contains_seq(url, "www.twse.com.tw"@) || contains_seq(url, "www.tpex.org.tw"@)
}

/// Decides whether an address skips the outbound proxy.
pub fn crawling_direct(url: &str) -> (r: bool)
    ensures
        r == bypasses_proxy(url@),
{
    str_contains(url, "www.twse.com.tw") || str_contains(url, "www.tpex.org.tw")
}

/// What decoding a Big5 byte stream yields: its text, or nothing when some
/// byte sequence is unmappable. The outcome depends on the bytes alone.
pub uninterp spec fn big5_decoded(bytes: Seq<u8>) -> Option<Seq<char>>;

/// Relies on encoding_rs's `BIG5.decode`: decodes a complete Big5 byte
/// buffer, reporting whether any malformed sequence was met; the result is a
/// function of the input bytes.
#[verifier::external_body]
pub fn decode_big5(input: &Vec<u8>) -> (r: Result<String, FetchError>)
    ensures
        match big5_decoded(input@) {
            Some(t) => r matches Ok(s) && s@ == t,
            None => r == Err::<String, FetchError>(FetchError::DecodeError),
        },
{
    let (decoded, _, had_errors) = encoding_rs::BIG5.decode(input.as_slice());
    if had_errors {
        Err(FetchError::DecodeError)
    } else {
        Ok(decoded.into_owned())
    }
}

/// Relies on `String::from_utf8`: returns the decoded string exactly when
/// the bytes are valid UTF-8.
#[verifier::external_body]
pub fn utf8_to_string(input: Vec<u8>) -> (r: Result<String, FetchError>)
    ensures
        match r {
            Ok(s) => valid_utf8(input@) && s@ == decode_utf8(input@),
            Err(e) => !valid_utf8(input@) && e == FetchError::DecodeError,
        },
{
    match String::from_utf8(input) {
        Ok(s) => Ok(s),
        Err(_) => Err(FetchError::DecodeError),
    }
}

/// The text a body decodes to under the charset its content type calls for,
/// or nothing when decoding fails.
pub open spec fn decoded_outcome(bytes: Seq<u8>, ct: Seq<char>) -> Option<Seq<char>> {
    if is_legacy_charset(ct) {
        big5_decoded(bytes)
    } else if valid_utf8(bytes) {
        Some(decode_utf8(bytes))
    } else {
        None
    }
}

/// Decodes a fetched body under the charset selected by its content type.
pub fn decode_body(bytes: Vec<u8>, content_type: &str) -> (r: Result<String, FetchError>)
    ensures
        match decoded_outcome(bytes@, content_type@) {
            Some(t) => r matches Ok(s) && s@ == t,
            None => r == Err::<String, FetchError>(FetchError::DecodeError),
        },
{
    if legacy_charset(content_type) {
        decode_big5(&bytes)
    } else {
        utf8_to_string(bytes)
    }
}

/// Turns an HTTP response, already read to completion, into a payload: a
/// 200 becomes decoded content, a 404 is reported as missing, any other
/// status as a failed fetch.
pub fn payload_from_response(source: &str, status: u16, content_type: &str, bytes: Vec<u8>) -> (r:
    Result<Payload, FetchError>)
    ensures
        status == 200 ==> match decoded_outcome(bytes@, content_type@) {
            Some(t) => r matches Ok(p) && p.content@ == t && p.source@ == source@
                && p.content_type@ == content_type@ && p.date is None,
            None => r == Err::<Payload, FetchError>(FetchError::DecodeError),
        },
        status == 404 ==> r == Err::<Payload, FetchError>(FetchError::NotFound),
        status != 200 && status != 404 ==> r == Err::<Payload, FetchError>(
            FetchError::FetchFailed(status),
        ),
{
    if status == 200 {
        match decode_body(bytes, content_type) {
            Ok(body) => Ok(
                Payload {
                    content: body,
                    source: source.to_owned(),
                    content_type: content_type.to_owned(),
                    date: None,
                },
            ),
            Err(e) => Err(e),
        }
    } else if status == 404 {
        Err(FetchError::NotFound)
    } else {
        Err(FetchError::FetchFailed(status))
    }
}

/// Wraps the body of a file read as a payload with the fixed plain-text
/// content type.
pub fn payload_from_file(source: &str, body: String) -> (r: Payload)
    ensures
        r.content@ == body@,
        r.source@ == source@,
        r.content_type@ == "text/plain"@,
        r.date is None,
{
    Payload {
        content: body,
        source: source.to_owned(),
        content_type: "text/plain".to_owned(),
        date: None,
    }
}

} // verus!
