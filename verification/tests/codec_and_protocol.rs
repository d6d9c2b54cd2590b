use susscope::codec::percent_decode;
use susscope::protocol::{
    begin_media_request, error_response, resource_response, success_response, MediaResponse,
    RequestError, RequestStep, ResourceOutcome,
};

fn decode_str(s: &str) -> Option<Vec<u8>> {
    percent_decode(&s.as_bytes().to_vec())
}

#[test]
fn percent_decode_restores_space_and_reserved() {
    assert_eq!(decode_str("a%20b"), Some(b"a b".to_vec()));
    assert_eq!(decode_str("a%2Fb%3Fx%3D1%26y"), Some(b"a/b?x=1&y".to_vec()));
    assert_eq!(decode_str("%23%5B%5D%40%21%24"), Some(b"#[]@!$".to_vec()));
}

#[test]
fn percent_decode_passes_plain_bytes_through() {
    assert_eq!(decode_str(""), Some(b"".to_vec()));
    assert_eq!(decode_str("plain-path_1.mp4"), Some(b"plain-path_1.mp4".to_vec()));
}

#[test]
fn percent_decode_accepts_both_hex_cases() {
    assert_eq!(decode_str("%2f%2F"), Some(b"//".to_vec()));
    assert_eq!(decode_str("%aB%Ab"), Some(vec![0xAB, 0xAB]));
}

#[test]
fn percent_decode_rejects_malformed() {
    assert_eq!(decode_str("%"), None);
    assert_eq!(decode_str("%2"), None);
    assert_eq!(decode_str("%zz"), None);
    assert_eq!(decode_str("ok%G1"), None);
    assert_eq!(decode_str("trailing%2 "), None);
}

fn begin(s: &str) -> RequestStep {
    begin_media_request(&s.as_bytes().to_vec())
}

#[test]
fn request_path_decodes_to_filesystem_path() {
    match begin("/tmp%20dir/clip%201.mp4") {
        RequestStep::Lookup(p) => assert_eq!(p, "tmp dir/clip 1.mp4"),
        RequestStep::Rejected(_) => panic!("expected a lookup"),
    }
}

#[test]
fn request_path_decodes_multibyte_utf8() {
    match begin("/caf%C3%A9.mp4") {
        RequestStep::Lookup(p) => assert_eq!(p, "caf\u{e9}.mp4"),
        RequestStep::Rejected(_) => panic!("expected a lookup"),
    }
}

fn expect_rejected(step: RequestStep) -> MediaResponse {
    match step {
        RequestStep::Rejected(r) => r,
        RequestStep::Lookup(_) => panic!("expected a rejection"),
    }
}

#[test]
fn request_with_bad_encoding_is_400() {
    let r = expect_rejected(begin("/bad%2"));
    assert_eq!(r.status, 400);
    assert_eq!(r.content_type, "text/plain");
    assert_eq!(r.body, b"Invalid URL".to_vec());
    assert!(r.content_length.is_none());
    assert!(r.content_range.is_none());
    assert!(r.accept_ranges.is_none());
}

#[test]
fn request_with_invalid_utf8_is_400() {
    let r = expect_rejected(begin("/%FF%FE"));
    assert_eq!(r.status, 400);
    assert_eq!(r.body, b"Invalid URL".to_vec());
}

#[test]
fn missing_resource_is_404() {
    let r = resource_response(ResourceOutcome::OpenFailed);
    assert_eq!(r.status, 404);
    assert_eq!(r.content_type, "text/plain");
    assert_eq!(r.body, b"Video not found".to_vec());
}

#[test]
fn unreadable_resource_is_500() {
    let r = resource_response(ResourceOutcome::ReadFailed);
    assert_eq!(r.status, 500);
    assert_eq!(r.content_type, "text/plain");
    assert_eq!(r.body, b"Failed to read video file".to_vec());
}

#[test]
fn loaded_resource_is_200_with_whole_body() {
    let r = resource_response(ResourceOutcome::Loaded(vec![9, 8, 7, 6, 5]));
    assert_eq!(r.status, 200);
    assert_eq!(r.content_type, "video/mp4");
    assert_eq!(r.accept_ranges.as_deref(), Some("bytes"));
    assert_eq!(r.content_length.as_deref(), Some("5"));
    assert_eq!(r.content_range.as_deref(), Some("bytes 0-5/6"));
    assert_eq!(r.body, vec![9, 8, 7, 6, 5]);
}

#[test]
fn success_response_range_is_whole_buffer() {
    let r = success_response(vec![0u8; 1000]);
    assert_eq!(r.content_length.as_deref(), Some("1000"));
    assert_eq!(r.content_range.as_deref(), Some("bytes 0-1000/1001"));
}

#[test]
fn error_responses_map_each_failure() {
    assert_eq!(error_response(RequestError::RequestDecodeFailed).status, 400);
    assert_eq!(error_response(RequestError::ResourceNotFound).status, 404);
    assert_eq!(error_response(RequestError::ResourceReadFailed).status, 500);
}
