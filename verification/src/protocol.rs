//! The streaming protocol handler: answering a request of the custom media
//! scheme for a materialized cache artifact.
//!
//! A request carries a percent-encoded filesystem path as the path component
//! of its URI. Handling is stateless per request: decode the path, have the
//! embedding program open and read the decoded file, and map the outcome to
//! a structured response. A decode failure answers 400, a file that cannot
//! be opened 404, one that cannot be read 500, and success 200 with the
//! whole file as body.
//!
//! A byte-range request is deliberately not honored: the whole file is
//! always returned, with a `Content-Range` value computed from the whole
//! buffer. Large files can therefore not be seeked efficiently by the
//! consumer; honoring `Range` with 206 answers would be the natural
//! improvement here.

use crate::codec::{percent_decoded, percent_decode_tail, string_from_utf8};
use crate::decimal::{decimal_chars, usize_to_decimal};
use vstd::prelude::*;
use vstd::string::*;
use vstd::utf8::{decode_utf8, valid_utf8};

verus! {

/// How handling a request can fail: the path's percent-encoding (or its
/// UTF-8) is malformed, the decoded file cannot be opened, or it cannot be
/// read.
#[derive(Clone, Copy, Debug, PartialEq, Eq, Structural)]
pub enum RequestError {
    RequestDecodeFailed,
    ResourceNotFound,
    ResourceReadFailed,
}

/// The status code each failure surfaces as.
pub open spec fn status_of(e: RequestError) -> u16 {
    match e {
        RequestError::RequestDecodeFailed => 400,
        RequestError::ResourceNotFound => 404,
        RequestError::ResourceReadFailed => 500,
    }
}

/// The plain-text body each failure surfaces with.
pub open spec fn message_bytes_of(e: RequestError) -> Seq<u8> {
    match e {
        RequestError::RequestDecodeFailed => ("Invalid URL").spec_bytes(),
        RequestError::ResourceNotFound => ("Video not found").spec_bytes(),
        RequestError::ResourceReadFailed => ("Failed to read video file").spec_bytes(),
    }
}

/// One response of the media scheme: a status, the headers a streaming
/// consumer reads, and the byte body. The embedding program turns this into
/// its wire form verbatim.
pub struct MediaResponse {
    pub status: u16,
    pub content_type: String,
    pub accept_ranges: Option<String>,
    pub content_length: Option<String>,
    pub content_range: Option<String>,
    pub body: Vec<u8>,
}

/// What an error answer looks like: the failure's status, a plain-text
/// body, and none of the streaming headers.
pub open spec fn error_response_spec(r: MediaResponse, e: RequestError) -> bool {
    &&& r.status == status_of(e)
    &&& r.content_type@ == "text/plain"@
    &&& r.accept_ranges is None
    &&& r.content_length is None
    &&& r.content_range is None
    &&& r.body@ == message_bytes_of(e)
}

/// The `Content-Range` value sent with a body of `n` bytes: computed from
/// the whole buffer, never from a requested range.
pub open spec fn content_range_value(n: nat) -> Seq<char> {
    "bytes 0-"@ + decimal_chars(n) + "/"@ + decimal_chars(n + 1)
}

/// What the success answer looks like: 200, playable content type, the
/// whole file as body, its length, and the whole-buffer range metadata.
pub open spec fn success_response_spec(r: MediaResponse, body: Seq<u8>) -> bool {
    &&& r.status == 200
    &&& r.content_type@ == "video/mp4"@
    &&& (r.accept_ranges matches Some(a) && a@ == "bytes"@)
    &&& (r.content_length matches Some(l) && l@ == decimal_chars(body.len()))
    &&& (r.content_range matches Some(c) && c@ == content_range_value(body.len()))
    &&& r.body@ == body
}

/// The error answer for `e`.
pub fn error_response(e: RequestError) -> (r: MediaResponse)
    ensures
        error_response_spec(r, e),
{
    let (status, body): (u16, Vec<u8>) = match e {
        RequestError::RequestDecodeFailed => (400, ("Invalid URL").as_bytes_vec()),
        RequestError::ResourceNotFound => (404, ("Video not found").as_bytes_vec()),
        RequestError::ResourceReadFailed => (500, ("Failed to read video file").as_bytes_vec()),
    };
    MediaResponse {
        status,
        content_type: String::from_str("text/plain"),
        accept_ranges: None,
        content_length: None,
        content_range: None,
        body,
    }
}

/// The success answer carrying the whole file.
pub fn success_response(body: Vec<u8>) -> (r: MediaResponse)
    requires
        body@.len() < usize::MAX,
    ensures
        success_response_spec(r, body@),
{
    let len = body.len();
    let mut range = String::from_str("bytes 0-");
    let len_str = usize_to_decimal(len);
    range.append(len_str.as_str());
    range.append("/");
    let end_str = usize_to_decimal(len + 1);
    range.append(end_str.as_str());
    proof {
        assert(range@ =~= content_range_value(body@.len()));
    }
    MediaResponse {
        status: 200,
        content_type: String::from_str("video/mp4"),
        accept_ranges: Some(String::from_str("bytes")),
        content_length: Some(len_str),
        content_range: Some(range),
        body,
    }
}

/// The request path's bytes without the URI's leading separator.
pub open spec fn request_target(raw: Seq<u8>) -> Seq<u8> {
    if raw.len() > 0 && raw[0] == '/' as u8 {
        raw.skip(1)
    } else {
        raw
    }
}

/// The filesystem path a request's path component decodes to: its target
/// strictly percent-decoded, then read as UTF-8. `None` exactly on a
/// malformed encoding.
pub open spec fn decoded_request(raw: Seq<u8>) -> Option<Seq<char>> {
    match percent_decoded(request_target(raw)) {
        Some(bytes) => if valid_utf8(bytes) {
            Some(decode_utf8(bytes))
        } else {
            None
        },
        None => None,
    }
}

/// What decoding a request decides: answer 400 at once, or look the decoded
/// path up.
pub enum RequestStep {
    Rejected(MediaResponse),
    Lookup(String),
}

/// Decodes a request's path component. A malformed percent-encoding, or
/// decoded bytes that are not UTF-8, are rejected with the 400 answer;
/// otherwise the decoded filesystem path is handed back for lookup.
pub fn begin_media_request(raw: &Vec<u8>) -> (r: RequestStep)
    ensures
        decoded_request(raw@) is None ==> (r matches RequestStep::Rejected(resp)
            && error_response_spec(resp, RequestError::RequestDecodeFailed)),
        decoded_request(raw@) matches Some(p) ==> (r matches RequestStep::Lookup(path) && path@
            == p),
{
    let start: usize = if raw.len() > 0 && raw[0] == 47 {
        1
    } else {
        0
    };
    proof {
        if !(raw@.len() > 0 && raw@[0] == '/' as u8) {
            assert(raw@.skip(0) =~= raw@);
        }
        assert(raw@.skip(start as int) == request_target(raw@));
    }
    match percent_decode_tail(raw, start) {
        None => RequestStep::Rejected(error_response(RequestError::RequestDecodeFailed)),
        Some(bytes) => match string_from_utf8(bytes) {
            None => RequestStep::Rejected(error_response(RequestError::RequestDecodeFailed)),
            Some(path) => RequestStep::Lookup(path),
        },
    }
}

/// How the embedding program's attempt to load the decoded file went.
pub enum ResourceOutcome {
    /// The file could not be opened.
    OpenFailed,
    /// The file opened but could not be read to the end.
    ReadFailed,
    /// The file's whole content.
    Loaded(Vec<u8>),
}

/// Maps the outcome of loading the decoded file to the response sent back:
/// 404 when it cannot be opened, 500 when it cannot be read, and otherwise
/// 200 with the whole content and its metadata.
pub fn resource_response(outcome: ResourceOutcome) -> (r: MediaResponse)
    requires
        outcome matches ResourceOutcome::Loaded(b) ==> b@.len() < usize::MAX,
    ensures
        outcome is OpenFailed ==> error_response_spec(r, RequestError::ResourceNotFound),
        outcome is ReadFailed ==> error_response_spec(r, RequestError::ResourceReadFailed),
        outcome matches ResourceOutcome::Loaded(b) ==> success_response_spec(r, b@),
{
    match outcome {
        ResourceOutcome::OpenFailed => error_response(RequestError::ResourceNotFound),
        ResourceOutcome::ReadFailed => error_response(RequestError::ResourceReadFailed),
        ResourceOutcome::Loaded(b) => success_response(b),
    }
}

} // verus!
