//! Conversion of handler return values into responses: a closed set of
//! types a user handler may return, each mapping deterministically to a
//! `Response`.

use vstd::prelude::*;
use vstd::utf8::encode_utf8;
use crate::headers::Headers;
use crate::http::HttpVersion;
use crate::response::{spec_built, Response};

verus! {

/// A value that can be turned into a `Response`.
pub trait ResponseLike {
    /// Converts `self` into a `Response`.
    fn to_response(self) -> Response;
}

impl ResponseLike for Response {
    fn to_response(self) -> (r: Response)
        ensures
            r == self,
    {
        self
    }
}

impl ResponseLike for () {
    fn to_response(self) -> (r: Response)
        ensures
            spec_built(r, HttpVersion::V1_1, 200, "Ok"@, Seq::empty(), None),
    {
        Response::default()
    }
}

impl ResponseLike for &str {
    fn to_response(self) -> (r: Response)
        ensures
            spec_built(r, HttpVersion::V1_1, 200, "Ok"@, encode_utf8(self@), None),
    {
        Response::ok(self.as_bytes_vec(), None, HttpVersion::V1_1)
    }
}

impl ResponseLike for String {
    fn to_response(self) -> (r: Response)
        ensures
            spec_built(r, HttpVersion::V1_1, 200, "Ok"@, encode_utf8(self@), None),
    {
        Response::ok(self.as_str().as_bytes_vec(), None, HttpVersion::V1_1)
    }
}

impl ResponseLike for Vec<u8> {
    fn to_response(self) -> (r: Response)
        ensures
            spec_built(r, HttpVersion::V1_1, 200, "Ok"@, self@, None),
    {
        Response::ok(self, None, HttpVersion::V1_1)
    }
}

impl<T: ResponseLike, E: ResponseLike> ResponseLike for Result<T, E> {
    fn to_response(self) -> (r: Response)
        ensures
            self matches Ok(v) ==> call_ensures(T::to_response, (v,), r),
            self matches Err(e) ==> call_ensures(E::to_response, (e,), r),
    {
        match self {
            Ok(v) => v.to_response(),
            Err(e) => e.to_response(),
        }
    }
}

#[verifier::external_type_specification]
#[verifier::external_body]
pub struct ExJsonValue(serde_json::Value);

#[verifier::external_type_specification]
#[verifier::external_body]
pub struct ExJsonError(serde_json::Error);

/// Serializes a JSON value to bytes.
///
/// Relies on `serde_json::to_vec`; what the bytes hold is not modeled
/// here, only that serialization may fail.
#[verifier::external_body]
fn json_to_vec(v: &serde_json::Value) -> Option<Vec<u8>> {
    serde_json::to_vec(v).ok()
}

/// Renders a JSON value as text.
///
/// Relies on `serde_json::Value`'s rendering through `ToString`.
#[verifier::external_body]
fn json_value_string(v: &serde_json::Value) -> String {
    v.to_string()
}

/// Renders a JSON error as text.
///
/// Relies on `serde_json::Error`'s rendering through `ToString`.
#[verifier::external_body]
fn json_error_string(e: &serde_json::Error) -> String {
    e.to_string()
}

/// The `200 Ok` reply that carries exactly these bytes as a JSON body.
pub fn json_response(bytes: Vec<u8>) -> (r: Response)
    ensures
        r.version == HttpVersion::V1_1,
        r.status == 200,
        r.status_text@ == "Ok"@,
        r.bytes@ == bytes@,
        r.headers matches Some(h) && h@ == Map::<Seq<char>, Seq<char>>::empty().insert(
            "Content-Type"@,
            "application/json; charset=utf-8"@,
        ),
{
    let mut h = Headers::new();
    h.insert("Content-Type".to_owned(), "application/json; charset=utf-8".to_owned());
    Response::ok(bytes, Some(h), HttpVersion::V1_1)
}

/// The `400 Bad Request` reply that carries exactly this text as a
/// plain-text body.
pub fn bad_request_text(text: String) -> (r: Response)
    ensures
        r.version == HttpVersion::V1_1,
        r.status == 400,
        r.status_text@ == "Bad Request"@,
        r.bytes@ == encode_utf8(text@),
        r.headers matches Some(h) && h@ == Map::<Seq<char>, Seq<char>>::empty().insert(
            "Content-Type"@,
            "text/plain; charset=utf-8"@,
        ),
{
    let mut h = Headers::new();
    h.insert("Content-Type".to_owned(), "text/plain; charset=utf-8".to_owned());
    Response::bad_request(text.as_str().as_bytes_vec(), Some(h), HttpVersion::V1_1)
}

impl ResponseLike for serde_json::Value {
    fn to_response(self) -> (r: Response)
        ensures
            r.version == HttpVersion::V1_1,
            r.status == 200,
            r.status_text@ == "Ok"@,
            r.headers matches Some(h) && h@ == Map::<Seq<char>, Seq<char>>::empty().insert(
                "Content-Type"@,
                "application/json; charset=utf-8"@,
            ),
    {
        let bytes = match json_to_vec(&self) {
            Some(b) => b,
            None => json_value_string(&self).as_str().as_bytes_vec(),
        };
        json_response(bytes)
    }
}

impl ResponseLike for serde_json::Error {
    fn to_response(self) -> (r: Response)
        ensures
            r.version == HttpVersion::V1_1,
            r.status == 400,
            r.status_text@ == "Bad Request"@,
            r.headers matches Some(h) && h@ == Map::<Seq<char>, Seq<char>>::empty().insert(
                "Content-Type"@,
                "text/plain; charset=utf-8"@,
            ),
    {
        bad_request_text(json_error_string(&self))
    }
}

} // verus!
