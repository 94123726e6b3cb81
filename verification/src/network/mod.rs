//! HTTP request framing and response interpretation for the speech
//! recognition and text processing services.
use vstd::prelude::*;
use crate::json::Json;
use crate::text::concat;
use vstd::utf8::encode_utf8;

pub mod asr_http;
pub mod llm_sse;

verus! {

/// A JSON POST request: where it goes, its `Authorization` header and its
/// body.
pub struct HttpRequest {
    pub url: String,
    pub authorization: String,
    pub body: Json,
}

/// Whether every byte of `value` may stand in an HTTP header value: a tab, or
/// a byte of at least 32 other than 127.
pub open spec fn header_value_ok(value: Seq<char>) -> bool {
    let bytes = encode_utf8(value);
    forall|i: int|
        0 <= i < bytes.len() ==> {
            let b = #[trigger] bytes[i];
            (b >= 32 && b != 127) || b == 9
        }
}

/// Text of the error that an unacceptable header value yields.
pub open spec fn invalid_header_text() -> Seq<char> {
    "failed to parse header value"@
}

/// Checks `value` with `reqwest::header::HeaderValue::from_str`. That function
/// accepts the value exactly when every byte of its UTF-8 encoding is a tab or
/// at least 32 and not 127, and its error displays as
/// "failed to parse header value"; the contract claims both.
#[verifier::external_body]
fn check_header_value(value: &str) -> (res: Result<(), String>)
    ensures
        res is Ok <==> header_value_ok(value@),
        res matches Err(m) ==> m@ == invalid_header_text(),
{
    match reqwest::header::HeaderValue::from_str(value) {
        Ok(_) => Ok(()),
        Err(e) => Err(e.to_string()),
    }
}

/// `Authorization` value for a bearer token.
pub open spec fn bearer_spec(api_key: Seq<char>) -> Seq<char> {
    "Bearer "@ + api_key
}

/// The `Authorization` value `Bearer <api_key>`, or the header error's text
/// when that value cannot stand in a header.
pub fn bearer_authorization(api_key: &str) -> (res: Result<String, String>)
    ensures
        match res {
            Ok(v) => v@ == bearer_spec(api_key@),
            Err(m) => m@ == invalid_header_text(),
        },
        res is Ok <==> header_value_ok(bearer_spec(api_key@)),
{
    let value = concat("Bearer ", api_key);
    match check_header_value(value.as_str()) {
        Ok(()) => Ok(value),
        Err(m) => Err(m),
    }
}

/// Whether an HTTP status code is a success (200 to 299).
pub fn status_is_success(status: u16) -> (res: bool)
    ensures
        res == (200 <= status < 300),
{
    200 <= status && status < 300
}

} // verus!
