//! The response model: a status-line value object, a constructor per
//! well-known status code, and the serializer to wire bytes.

use vstd::prelude::*;
use vstd::utf8::encode_utf8;
use crate::headers::Headers;
use crate::http::{spec_version_chars, HttpVersion};
use crate::text::{bytes_eq, dec_str, lossy_decode, lossy_string, spec_dec_chars, str_eq};

verus! {

/// The HTTP version responses carry unless one is chosen explicitly.
pub const DEFAULT_HTTP_VERSION: HttpVersion = HttpVersion::V1_1;

/// A response: status line, optional headers, raw body bytes.
#[derive(Debug)]
pub struct Response {
    /// HTTP protocol version of the status line.
    pub version: HttpVersion,
    /// HTTP status code.
    pub status: u16,
    /// The reason phrase belonging to the status code.
    pub status_text: &'static str,
    /// The response body, as raw bytes.
    pub bytes: Vec<u8>,
    /// The header block, if any header was set.
    pub headers: Option<Headers>,
}

/// Whether `r` is the response built from exactly these parts.
pub open spec fn spec_built(
    r: Response,
    version: HttpVersion,
    status: u16,
    text: Seq<char>,
    bytes: Seq<u8>,
    headers: Option<Headers>,
) -> bool {
    &&& r.version == version
    &&& r.status == status
    &&& r.status_text@ == text
    &&& r.bytes@ == bytes
    &&& r.headers == headers
}

/// The header map a response carries: the empty map when none was set.
pub open spec fn spec_headers_map(headers: Option<Headers>) -> Map<Seq<char>, Seq<char>> {
    match headers {
        Some(h) => h@,
        None => Map::empty(),
    }
}

/// One serialized header line per pair, in order: `key: value` and a
/// line break each.
pub open spec fn spec_header_block(ps: Seq<(Seq<char>, Seq<char>)>) -> Seq<char>
    decreases ps.len(),
{
    if ps.len() == 0 {
        Seq::empty()
    } else {
        spec_header_block(ps.drop_last()) + ps.last().0 + ": "@ + ps.last().1 + "\r\n"@
    }
}

/// The status line and header block of a response: everything before
/// the body.
pub open spec fn spec_head_chars(r: Response) -> Seq<char> {
    spec_version_chars(r.version) + " "@ + spec_dec_chars(r.status as nat) + " "@ + r.status_text@
        + "\r\n"@ + (match r.headers {
        Some(h) => spec_header_block(h.pairs()),
        None => Seq::empty(),
    }) + "\r\n"@
}

impl Response {
    /// Builds a response from its parts. Prefer the per-status
    /// constructors (`Response::ok`, `Response::not_found`, ...).
    pub fn new(
        version: HttpVersion,
        status: u16,
        status_text: &'static str,
        bytes: Vec<u8>,
        headers: Option<Headers>,
    ) -> (r: Response)
        ensures
            spec_built(r, version, status, status_text@, bytes@, headers),
    {
        Response { version, status, status_text, bytes, headers }
    }

    /// Replaces the response body.
    pub fn set_bytes(&mut self, bytes: &[u8])
        ensures
            final(self).bytes@ == bytes@,
            final(self).version == old(self).version,
            final(self).status == old(self).status,
            final(self).status_text == old(self).status_text,
            final(self).headers == old(self).headers,
    {
        let mut v: Vec<u8> = Vec::new();
        v.extend_from_slice(bytes);
        self.bytes = v;
    }

    /// Sets a header, overwriting any earlier value of the key. Use
    /// `content_type` for the `Content-Type` header.
    pub fn set_header(&mut self, key: &'static str, value: String)
        ensures
            final(self).headers matches Some(h) && h@ == spec_headers_map(old(self).headers).insert(
                key@,
                value@,
            ),
            final(self).version == old(self).version,
            final(self).status == old(self).status,
            final(self).status_text == old(self).status_text,
            final(self).bytes == old(self).bytes,
    {
        let mut hs: Option<Headers> = None;
        core::mem::swap(&mut hs, &mut self.headers);
        let mut h = match hs {
            Some(h) => h,
            None => Headers::new(),
        };
        h.insert(key.to_owned(), value);
        self.headers = Some(h);
    }

    /// Sets a header, returning the response itself.
    pub fn with_header(self, key: &'static str, value: String) -> (r: Response)
        ensures
            r.headers matches Some(h) && h@ == spec_headers_map(self.headers).insert(key@, value@),
            r.version == self.version,
            r.status == self.status,
            r.status_text == self.status_text,
            r.bytes == self.bytes,
    {
        let mut r = self;
        r.set_header(key, value);
        r
    }

    /// Sets the `Content-Type` header. The value is not checked against
    /// the registered media types.
    pub fn content_type(&mut self, value: String)
        ensures
            final(self).headers matches Some(h) && h@ == spec_headers_map(old(self).headers).insert(
                "Content-Type"@,
                value@,
            ),
            final(self).version == old(self).version,
            final(self).status == old(self).status,
            final(self).status_text == old(self).status_text,
            final(self).bytes == old(self).bytes,
    {
        self.set_header("Content-Type", value)
    }

    /// Sets the `Content-Type` header, returning the response itself.
    pub fn with_content_type(self, value: String) -> (r: Response)
        ensures
            r.headers matches Some(h) && h@ == spec_headers_map(self.headers).insert(
                "Content-Type"@,
                value@,
            ),
            r.version == self.version,
            r.status == self.status,
            r.status_text == self.status_text,
            r.bytes == self.bytes,
    {
        self.with_header("Content-Type", value)
    }

    /// Sets the `Content-Length` header to the given length.
    pub fn set_content_length(&mut self, len: usize)
        ensures
            final(self).headers matches Some(h) && h@ == spec_headers_map(old(self).headers).insert(
                "Content-Length"@,
                spec_dec_chars(len as nat),
            ),
            final(self).version == old(self).version,
            final(self).status == old(self).status,
            final(self).status_text == old(self).status_text,
            final(self).bytes == old(self).bytes,
    {
        self.set_header("Content-Length", dec_str(len))
    }

    /// The length of the response body.
    pub fn len(&self) -> (r: usize)
        ensures
            r == self.bytes@.len(),
    {
        self.bytes.len()
    }

    /// Whether the response body is empty.
    pub fn is_empty(&self) -> (r: bool)
        ensures
            r == (self.bytes@.len() == 0),
    {
        self.bytes.is_empty()
    }

    /// The status line and header block, serialized; everything of the
    /// wire form but the body.
    fn prepare_response(&self) -> (r: String)
        ensures
            r@ == spec_head_chars(*self),
    {
        let mut text = String::new();
        text.append(self.version.as_str());
        text.append(" ");
        text.append(dec_str(self.status as usize).as_str());
        text.append(" ");
        text.append(self.status_text);
        text.append("\r\n");
        let ghost prefix = text@;
        match &self.headers {
            Some(h) => {
                let n = h.num_entries();
                let mut i: usize = 0;
                while i < n
                    invariant
                        n == h.pairs().len(),
                        0 <= i <= n,
                        text@ == prefix + spec_header_block(h.pairs().take(i as int)),
                    decreases n - i,
                {
                    let (k, v) = h.entry_at(i);
                    text.append(k.as_str());
                    text.append(": ");
                    text.append(v.as_str());
                    text.append("\r\n");
                    proof {
                        let ps = h.pairs();
                        assert(ps.take(i + 1).drop_last() =~= ps.take(i as int));
                        assert(ps.take(i + 1).last() == ps[i as int]);
                    }
                    i += 1;
                }
                proof {
                    assert(h.pairs().take(n as int) =~= h.pairs());
                }
            },
            None => {},
        }
        text.append("\r\n");
        text
    }

    /// The full wire form as text, the body decoded lossily.
    pub fn to_string(&self) -> (r: String)
        ensures
            r@ == spec_head_chars(*self) + lossy_decode(self.bytes@),
    {
        let mut s = self.prepare_response();
        s.append(lossy_string(self.bytes.as_slice()).as_str());
        s
    }

    /// The full wire form of the response, consuming its body: the
    /// serialized head followed by the raw body bytes.
    pub fn to_bytes(&mut self) -> (r: Vec<u8>)
        ensures
            r@ == encode_utf8(spec_head_chars(*old(self))) + old(self).bytes@,
            final(self).bytes@ == Seq::<u8>::empty(),
            final(self).version == old(self).version,
            final(self).status == old(self).status,
            final(self).status_text == old(self).status_text,
            final(self).headers == old(self).headers,
    {
        let head = self.prepare_response();
        let mut bytes = head.as_str().as_bytes_vec();
        bytes.append(&mut self.bytes);
        bytes
    }

    /// Writes the response to a byte sink and flushes it, consuming the
    /// body.
    pub fn send_to<T: std::io::Write>(&mut self, stream: &mut T) -> (r: Result<(), std::io::Error>)
        ensures
            final(self).bytes@ == Seq::<u8>::empty(),
            final(self).version == old(self).version,
            final(self).status == old(self).status,
            final(self).status_text == old(self).status_text,
            final(self).headers == old(self).headers,
    {
        let bytes = self.to_bytes();
        match write_all_bytes(stream, bytes.as_slice()) {
            Ok(()) => flush_stream(stream),
            Err(e) => Err(e),
        }
    }

    /// Adds the optional convenience headers: `Content-Length` from the
    /// body, `Date` as given, and a fixed `Server` identifier.
    pub fn with_default_headers_dated(self, date: String) -> (r: Response)
        ensures
            r.headers matches Some(h) && h@ == spec_headers_map(self.headers).insert(
                "Content-Length"@,
                spec_dec_chars(self.bytes@.len()),
            ).insert("Date"@, date@).insert("Server"@, "Snowboard"@),
            r.version == self.version,
            r.status == self.status,
            r.status_text == self.status_text,
            r.bytes == self.bytes,
    {
        let mut r = self;
        let len = r.len();
        r.set_content_length(len);
        r.set_header("Date", date);
        r.set_header("Server", "Snowboard".to_owned());
        r
    }

    /// Adds the convenience headers with the current date.
    pub fn with_default_headers(self) -> (r: Response)
        ensures
            r.headers matches Some(h) && exists|date: Seq<char>|
                h@ == spec_headers_map(self.headers).insert(
                    "Content-Length"@,
                    spec_dec_chars(self.bytes@.len()),
                ).insert("Date"@, date).insert("Server"@, "Snowboard"@),
            r.version == self.version,
            r.status == self.status,
            r.status_text == self.status_text,
            r.bytes == self.bytes,
    {
        let date = now_rfc2822();
        let r = self.with_default_headers_dated(date);
        r
    }

    /// Adds the convenience headers when the flag asks for them; used by
    /// the dispatcher, where default headers are opt-in configuration.
    pub fn maybe_add_defaults(self, should_insert: bool) -> (r: Response)
        ensures
            !should_insert ==> r == self,
            should_insert ==> {
                &&& r.headers matches Some(h) && exists|date: Seq<char>|
                    h@ == spec_headers_map(self.headers).insert(
                        "Content-Length"@,
                        spec_dec_chars(self.bytes@.len()),
                    ).insert("Date"@, date).insert("Server"@, "Snowboard"@)
                &&& r.version == self.version
                &&& r.status == self.status
                &&& r.status_text == self.status_text
                &&& r.bytes == self.bytes
            },
    {
        if should_insert {
            self.with_default_headers()
        } else {
            self
        }
    }
}

impl Default for Response {
    /// The default response: `200 Ok`, empty body, no headers.
    fn default() -> (r: Response)
        ensures
            spec_built(r, HttpVersion::V1_1, 200, "Ok"@, Seq::empty(), None),
    {
        Response {
            version: HttpVersion::V1_1,
            status: 200,
            status_text: "Ok",
            bytes: Vec::new(),
            headers: None,
        }
    }
}

impl PartialEq for Response {
    fn eq(&self, other: &Response) -> (r: bool) {
        self.version == other.version && self.status == other.status && str_eq(
            self.status_text,
            other.status_text,
        ) && bytes_eq(self.bytes.as_slice(), other.bytes.as_slice()) && match (
            &self.headers,
            &other.headers,
        ) {
            (None, None) => true,
            (Some(a), Some(b)) => a == b,
            _ => false,
        }
    }
}

impl vstd::std_specs::cmp::PartialEqSpecImpl for Response {
    open spec fn obeys_eq_spec() -> bool {
        true
    }

    open spec fn eq_spec(&self, other: &Response) -> bool {
        &&& self.version == other.version
        &&& self.status == other.status
        &&& self.status_text@ == other.status_text@
        &&& self.bytes@ == other.bytes@
        &&& match (self.headers, other.headers) {
            (None, None) => true,
            (Some(a), Some(b)) => a@ == b@,
            _ => false,
        }
    }
}

/// The current date and time, rendered for a `Date` header.
///
/// Relies on `chrono::Utc::now` and `to_rfc2822`; the result depends on
/// the clock, so nothing is promised of it. `to_rfc2822` panics only on
/// dates no clock between the years 0 and 9999 produces.
#[verifier::external_body]
fn now_rfc2822() -> String {
    chrono::Utc::now().to_rfc2822()
}

#[verifier::external_type_specification]
#[verifier::external_body]
pub struct ExIoError(std::io::Error);

/// Hands a whole buffer to a byte sink.
///
/// Relies on `std::io::Write::write_all`: the buffer is written entirely
/// or an error is returned; nothing of the sink is modeled here.
#[verifier::external_body]
fn write_all_bytes<T: std::io::Write>(stream: &mut T, bytes: &[u8]) -> Result<(), std::io::Error> {
    stream.write_all(bytes)
}

/// Flushes a byte sink.
///
/// Relies on `std::io::Write::flush`; nothing of the sink is modeled.
#[verifier::external_body]
fn flush_stream<T: std::io::Write>(stream: &mut T) -> Result<(), std::io::Error> {
    stream.flush()
}

impl Response {
    /// 100 Continue.
    pub fn continue_(bytes: Vec<u8>, headers: Option<Headers>, version: HttpVersion) -> (r: Response)
        ensures
            spec_built(r, version, 100, "Continue"@, bytes@, headers),
    {
        Response::new(version, 100, "Continue", bytes, headers)
    }

    /// 101 Switching Protocols.
    pub fn switching_protocols(bytes: Vec<u8>, headers: Option<Headers>, version: HttpVersion) -> (r: Response)
        ensures
            spec_built(r, version, 101, "Switching Protocols"@, bytes@, headers),
    {
        Response::new(version, 101, "Switching Protocols", bytes, headers)
    }

    /// 102 Processing.
    pub fn processing(bytes: Vec<u8>, headers: Option<Headers>, version: HttpVersion) -> (r: Response)
        ensures
            spec_built(r, version, 102, "Processing"@, bytes@, headers),
    {
        Response::new(version, 102, "Processing", bytes, headers)
    }

    /// 103 Early Hints.
    pub fn early_hints(bytes: Vec<u8>, headers: Option<Headers>, version: HttpVersion) -> (r: Response)
        ensures
            spec_built(r, version, 103, "Early Hints"@, bytes@, headers),
    {
        Response::new(version, 103, "Early Hints", bytes, headers)
    }

    /// 200 Ok.
    pub fn ok(bytes: Vec<u8>, headers: Option<Headers>, version: HttpVersion) -> (r: Response)
        ensures
            spec_built(r, version, 200, "Ok"@, bytes@, headers),
    {
        Response::new(version, 200, "Ok", bytes, headers)
    }

    /// 201 Created.
    pub fn created(bytes: Vec<u8>, headers: Option<Headers>, version: HttpVersion) -> (r: Response)
        ensures
            spec_built(r, version, 201, "Created"@, bytes@, headers),
    {
        Response::new(version, 201, "Created", bytes, headers)
    }

    /// 202 Accepted.
    pub fn accepted(bytes: Vec<u8>, headers: Option<Headers>, version: HttpVersion) -> (r: Response)
        ensures
            spec_built(r, version, 202, "Accepted"@, bytes@, headers),
    {
        Response::new(version, 202, "Accepted", bytes, headers)
    }

    /// 203 Non-Authoritative Information.
    pub fn non_authoritative_information(bytes: Vec<u8>, headers: Option<Headers>, version: HttpVersion) -> (r: Response)
        ensures
            spec_built(r, version, 203, "Non-Authoritative Information"@, bytes@, headers),
    {
        Response::new(version, 203, "Non-Authoritative Information", bytes, headers)
    }

    /// 204 No Content.
    pub fn no_content(bytes: Vec<u8>, headers: Option<Headers>, version: HttpVersion) -> (r: Response)
        ensures
            spec_built(r, version, 204, "No Content"@, bytes@, headers),
    {
        Response::new(version, 204, "No Content", bytes, headers)
    }

    /// 205 Reset Content.
    pub fn reset_content(bytes: Vec<u8>, headers: Option<Headers>, version: HttpVersion) -> (r: Response)
        ensures
            spec_built(r, version, 205, "Reset Content"@, bytes@, headers),
    {
        Response::new(version, 205, "Reset Content", bytes, headers)
    }

    /// 206 Partial Content.
    pub fn partial_content(bytes: Vec<u8>, headers: Option<Headers>, version: HttpVersion) -> (r: Response)
        ensures
            spec_built(r, version, 206, "Partial Content"@, bytes@, headers),
    {
        Response::new(version, 206, "Partial Content", bytes, headers)
    }

    /// 207 Multi-Status.
    pub fn multi_status(bytes: Vec<u8>, headers: Option<Headers>, version: HttpVersion) -> (r: Response)
        ensures
            spec_built(r, version, 207, "Multi-Status"@, bytes@, headers),
    {
        Response::new(version, 207, "Multi-Status", bytes, headers)
    }

    /// 208 Already Reported.
    pub fn already_reported(bytes: Vec<u8>, headers: Option<Headers>, version: HttpVersion) -> (r: Response)
        ensures
            spec_built(r, version, 208, "Already Reported"@, bytes@, headers),
    {
        Response::new(version, 208, "Already Reported", bytes, headers)
    }

    /// 226 IM Used.
    pub fn im_used(bytes: Vec<u8>, headers: Option<Headers>, version: HttpVersion) -> (r: Response)
        ensures
            spec_built(r, version, 226, "IM Used"@, bytes@, headers),
    {
        Response::new(version, 226, "IM Used", bytes, headers)
    }

    /// 300 Multiple Choices.
    pub fn multiple_choices(bytes: Vec<u8>, headers: Option<Headers>, version: HttpVersion) -> (r: Response)
        ensures
            spec_built(r, version, 300, "Multiple Choices"@, bytes@, headers),
    {
        Response::new(version, 300, "Multiple Choices", bytes, headers)
    }

    /// 301 Moved Permanently.
    pub fn moved_permanently(bytes: Vec<u8>, headers: Option<Headers>, version: HttpVersion) -> (r: Response)
        ensures
            spec_built(r, version, 301, "Moved Permanently"@, bytes@, headers),
    {
        Response::new(version, 301, "Moved Permanently", bytes, headers)
    }

    /// 302 Found.
    pub fn found(bytes: Vec<u8>, headers: Option<Headers>, version: HttpVersion) -> (r: Response)
        ensures
            spec_built(r, version, 302, "Found"@, bytes@, headers),
    {
        Response::new(version, 302, "Found", bytes, headers)
    }

    /// 303 See Other.
    pub fn see_other(bytes: Vec<u8>, headers: Option<Headers>, version: HttpVersion) -> (r: Response)
        ensures
            spec_built(r, version, 303, "See Other"@, bytes@, headers),
    {
        Response::new(version, 303, "See Other", bytes, headers)
    }

    /// 304 Not Modified.
    pub fn not_modified(bytes: Vec<u8>, headers: Option<Headers>, version: HttpVersion) -> (r: Response)
        ensures
            spec_built(r, version, 304, "Not Modified"@, bytes@, headers),
    {
        Response::new(version, 304, "Not Modified", bytes, headers)
    }

    /// 305 Use Proxy.
    pub fn use_proxy(bytes: Vec<u8>, headers: Option<Headers>, version: HttpVersion) -> (r: Response)
        ensures
            spec_built(r, version, 305, "Use Proxy"@, bytes@, headers),
    {
        Response::new(version, 305, "Use Proxy", bytes, headers)
    }

    /// 307 Temporary Redirect.
    pub fn temporary_redirect(bytes: Vec<u8>, headers: Option<Headers>, version: HttpVersion) -> (r: Response)
        ensures
            spec_built(r, version, 307, "Temporary Redirect"@, bytes@, headers),
    {
        Response::new(version, 307, "Temporary Redirect", bytes, headers)
    }

    /// 308 Permanent Redirect.
    pub fn permanent_redirect(bytes: Vec<u8>, headers: Option<Headers>, version: HttpVersion) -> (r: Response)
        ensures
            spec_built(r, version, 308, "Permanent Redirect"@, bytes@, headers),
    {
        Response::new(version, 308, "Permanent Redirect", bytes, headers)
    }

    /// 400 Bad Request.
    pub fn bad_request(bytes: Vec<u8>, headers: Option<Headers>, version: HttpVersion) -> (r: Response)
        ensures
            spec_built(r, version, 400, "Bad Request"@, bytes@, headers),
    {
        Response::new(version, 400, "Bad Request", bytes, headers)
    }

    /// 401 Unauthorized.
    pub fn unauthorized(bytes: Vec<u8>, headers: Option<Headers>, version: HttpVersion) -> (r: Response)
        ensures
            spec_built(r, version, 401, "Unauthorized"@, bytes@, headers),
    {
        Response::new(version, 401, "Unauthorized", bytes, headers)
    }

    /// 402 Payment Required.
    pub fn payment_required(bytes: Vec<u8>, headers: Option<Headers>, version: HttpVersion) -> (r: Response)
        ensures
            spec_built(r, version, 402, "Payment Required"@, bytes@, headers),
    {
        Response::new(version, 402, "Payment Required", bytes, headers)
    }

    /// 403 Forbidden.
    pub fn forbidden(bytes: Vec<u8>, headers: Option<Headers>, version: HttpVersion) -> (r: Response)
        ensures
            spec_built(r, version, 403, "Forbidden"@, bytes@, headers),
    {
        Response::new(version, 403, "Forbidden", bytes, headers)
    }

    /// 404 Not Found.
    pub fn not_found(bytes: Vec<u8>, headers: Option<Headers>, version: HttpVersion) -> (r: Response)
        ensures
            spec_built(r, version, 404, "Not Found"@, bytes@, headers),
    {
        Response::new(version, 404, "Not Found", bytes, headers)
    }

    /// 405 Method Not Allowed.
    pub fn method_not_allowed(bytes: Vec<u8>, headers: Option<Headers>, version: HttpVersion) -> (r: Response)
        ensures
            spec_built(r, version, 405, "Method Not Allowed"@, bytes@, headers),
    {
        Response::new(version, 405, "Method Not Allowed", bytes, headers)
    }

    /// 406 Not Acceptable.
    pub fn not_acceptable(bytes: Vec<u8>, headers: Option<Headers>, version: HttpVersion) -> (r: Response)
        ensures
            spec_built(r, version, 406, "Not Acceptable"@, bytes@, headers),
    {
        Response::new(version, 406, "Not Acceptable", bytes, headers)
    }

    /// 407 Proxy Authentication Required.
    pub fn proxy_authentication_required(bytes: Vec<u8>, headers: Option<Headers>, version: HttpVersion) -> (r: Response)
        ensures
            spec_built(r, version, 407, "Proxy Authentication Required"@, bytes@, headers),
    {
        Response::new(version, 407, "Proxy Authentication Required", bytes, headers)
    }

    /// 408 Request Timeout.
    pub fn request_timeout(bytes: Vec<u8>, headers: Option<Headers>, version: HttpVersion) -> (r: Response)
        ensures
            spec_built(r, version, 408, "Request Timeout"@, bytes@, headers),
    {
        Response::new(version, 408, "Request Timeout", bytes, headers)
    }

    /// 409 Conflict.
    pub fn conflict(bytes: Vec<u8>, headers: Option<Headers>, version: HttpVersion) -> (r: Response)
        ensures
            spec_built(r, version, 409, "Conflict"@, bytes@, headers),
    {
        Response::new(version, 409, "Conflict", bytes, headers)
    }

    /// 410 Gone.
    pub fn gone(bytes: Vec<u8>, headers: Option<Headers>, version: HttpVersion) -> (r: Response)
        ensures
            spec_built(r, version, 410, "Gone"@, bytes@, headers),
    {
        Response::new(version, 410, "Gone", bytes, headers)
    }

    /// 411 Length Required.
    pub fn length_required(bytes: Vec<u8>, headers: Option<Headers>, version: HttpVersion) -> (r: Response)
        ensures
            spec_built(r, version, 411, "Length Required"@, bytes@, headers),
    {
        Response::new(version, 411, "Length Required", bytes, headers)
    }

    /// 412 Precondition Failed.
    pub fn precondition_failed(bytes: Vec<u8>, headers: Option<Headers>, version: HttpVersion) -> (r: Response)
        ensures
            spec_built(r, version, 412, "Precondition Failed"@, bytes@, headers),
    {
        Response::new(version, 412, "Precondition Failed", bytes, headers)
    }

    /// 413 Payload Too Large.
    pub fn payload_too_large(bytes: Vec<u8>, headers: Option<Headers>, version: HttpVersion) -> (r: Response)
        ensures
            spec_built(r, version, 413, "Payload Too Large"@, bytes@, headers),
    {
        Response::new(version, 413, "Payload Too Large", bytes, headers)
    }

    /// 414 URI Too Long.
    pub fn uri_too_long(bytes: Vec<u8>, headers: Option<Headers>, version: HttpVersion) -> (r: Response)
        ensures
            spec_built(r, version, 414, "URI Too Long"@, bytes@, headers),
    {
        Response::new(version, 414, "URI Too Long", bytes, headers)
    }

    /// 415 Unsupported Media Type.
    pub fn unsupported_media_type(bytes: Vec<u8>, headers: Option<Headers>, version: HttpVersion) -> (r: Response)
        ensures
            spec_built(r, version, 415, "Unsupported Media Type"@, bytes@, headers),
    {
        Response::new(version, 415, "Unsupported Media Type", bytes, headers)
    }

    /// 416 Range Not Satisfiable.
    pub fn range_not_satisfiable(bytes: Vec<u8>, headers: Option<Headers>, version: HttpVersion) -> (r: Response)
        ensures
            spec_built(r, version, 416, "Range Not Satisfiable"@, bytes@, headers),
    {
        Response::new(version, 416, "Range Not Satisfiable", bytes, headers)
    }

    /// 417 Expectation Failed.
    pub fn expectation_failed(bytes: Vec<u8>, headers: Option<Headers>, version: HttpVersion) -> (r: Response)
        ensures
            spec_built(r, version, 417, "Expectation Failed"@, bytes@, headers),
    {
        Response::new(version, 417, "Expectation Failed", bytes, headers)
    }

    /// 418 I'm a teapot.
    pub fn im_a_teapot(bytes: Vec<u8>, headers: Option<Headers>, version: HttpVersion) -> (r: Response)
        ensures
            spec_built(r, version, 418, "I'm a teapot"@, bytes@, headers),
    {
        Response::new(version, 418, "I'm a teapot", bytes, headers)
    }

    /// 421 Misdirected Request.
    pub fn misdirected_request(bytes: Vec<u8>, headers: Option<Headers>, version: HttpVersion) -> (r: Response)
        ensures
            spec_built(r, version, 421, "Misdirected Request"@, bytes@, headers),
    {
        Response::new(version, 421, "Misdirected Request", bytes, headers)
    }

    /// 422 Unprocessable Entity.
    pub fn unprocessable_entity(bytes: Vec<u8>, headers: Option<Headers>, version: HttpVersion) -> (r: Response)
        ensures
            spec_built(r, version, 422, "Unprocessable Entity"@, bytes@, headers),
    {
        Response::new(version, 422, "Unprocessable Entity", bytes, headers)
    }

    /// 423 Locked.
    pub fn locked(bytes: Vec<u8>, headers: Option<Headers>, version: HttpVersion) -> (r: Response)
        ensures
            spec_built(r, version, 423, "Locked"@, bytes@, headers),
    {
        Response::new(version, 423, "Locked", bytes, headers)
    }

    /// 424 Failed Dependency.
    pub fn failed_dependency(bytes: Vec<u8>, headers: Option<Headers>, version: HttpVersion) -> (r: Response)
        ensures
            spec_built(r, version, 424, "Failed Dependency"@, bytes@, headers),
    {
        Response::new(version, 424, "Failed Dependency", bytes, headers)
    }

    /// 425 Too Early.
    pub fn too_early(bytes: Vec<u8>, headers: Option<Headers>, version: HttpVersion) -> (r: Response)
        ensures
            spec_built(r, version, 425, "Too Early"@, bytes@, headers),
    {
        Response::new(version, 425, "Too Early", bytes, headers)
    }

    /// 426 Upgrade Required.
    pub fn upgrade_required(bytes: Vec<u8>, headers: Option<Headers>, version: HttpVersion) -> (r: Response)
        ensures
            spec_built(r, version, 426, "Upgrade Required"@, bytes@, headers),
    {
        Response::new(version, 426, "Upgrade Required", bytes, headers)
    }

    /// 428 Precondition Required.
    pub fn precondition_required(bytes: Vec<u8>, headers: Option<Headers>, version: HttpVersion) -> (r: Response)
        ensures
            spec_built(r, version, 428, "Precondition Required"@, bytes@, headers),
    {
        Response::new(version, 428, "Precondition Required", bytes, headers)
    }

    /// 429 Too Many Requests.
    pub fn too_many_requests(bytes: Vec<u8>, headers: Option<Headers>, version: HttpVersion) -> (r: Response)
        ensures
            spec_built(r, version, 429, "Too Many Requests"@, bytes@, headers),
    {
        Response::new(version, 429, "Too Many Requests", bytes, headers)
    }

    /// 431 Request Header Fields Too Large.
    pub fn request_header_fields_too_large(bytes: Vec<u8>, headers: Option<Headers>, version: HttpVersion) -> (r: Response)
        ensures
            spec_built(r, version, 431, "Request Header Fields Too Large"@, bytes@, headers),
    {
        Response::new(version, 431, "Request Header Fields Too Large", bytes, headers)
    }

    /// 451 Unavailable For Legal Reasons.
    pub fn unavailable_for_legal_reasons(bytes: Vec<u8>, headers: Option<Headers>, version: HttpVersion) -> (r: Response)
        ensures
            spec_built(r, version, 451, "Unavailable For Legal Reasons"@, bytes@, headers),
    {
        Response::new(version, 451, "Unavailable For Legal Reasons", bytes, headers)
    }

    /// 500 Internal Server Error.
    pub fn internal_server_error(bytes: Vec<u8>, headers: Option<Headers>, version: HttpVersion) -> (r: Response)
        ensures
            spec_built(r, version, 500, "Internal Server Error"@, bytes@, headers),
    {
        Response::new(version, 500, "Internal Server Error", bytes, headers)
    }

    /// 501 Not Implemented.
    pub fn not_implemented(bytes: Vec<u8>, headers: Option<Headers>, version: HttpVersion) -> (r: Response)
        ensures
            spec_built(r, version, 501, "Not Implemented"@, bytes@, headers),
    {
        Response::new(version, 501, "Not Implemented", bytes, headers)
    }

    /// 502 Bad Gateway.
    pub fn bad_gateway(bytes: Vec<u8>, headers: Option<Headers>, version: HttpVersion) -> (r: Response)
        ensures
            spec_built(r, version, 502, "Bad Gateway"@, bytes@, headers),
    {
        Response::new(version, 502, "Bad Gateway", bytes, headers)
    }

    /// 503 Service Unavailable.
    pub fn service_unavailable(bytes: Vec<u8>, headers: Option<Headers>, version: HttpVersion) -> (r: Response)
        ensures
            spec_built(r, version, 503, "Service Unavailable"@, bytes@, headers),
    {
        Response::new(version, 503, "Service Unavailable", bytes, headers)
    }

    /// 504 Gateway Timeout.
    pub fn gateway_timeout(bytes: Vec<u8>, headers: Option<Headers>, version: HttpVersion) -> (r: Response)
        ensures
            spec_built(r, version, 504, "Gateway Timeout"@, bytes@, headers),
    {
        Response::new(version, 504, "Gateway Timeout", bytes, headers)
    }

    /// 505 HTTP Version Not Supported.
    pub fn http_version_not_supported(bytes: Vec<u8>, headers: Option<Headers>, version: HttpVersion) -> (r: Response)
        ensures
            spec_built(r, version, 505, "HTTP Version Not Supported"@, bytes@, headers),
    {
        Response::new(version, 505, "HTTP Version Not Supported", bytes, headers)
    }

    /// 506 Variant Also Negotiates.
    pub fn variant_also_negotiates(bytes: Vec<u8>, headers: Option<Headers>, version: HttpVersion) -> (r: Response)
        ensures
            spec_built(r, version, 506, "Variant Also Negotiates"@, bytes@, headers),
    {
        Response::new(version, 506, "Variant Also Negotiates", bytes, headers)
    }

    /// 507 Insufficient Storage.
    pub fn insufficient_storage(bytes: Vec<u8>, headers: Option<Headers>, version: HttpVersion) -> (r: Response)
        ensures
            spec_built(r, version, 507, "Insufficient Storage"@, bytes@, headers),
    {
        Response::new(version, 507, "Insufficient Storage", bytes, headers)
    }

    /// 508 Loop Detected.
    pub fn loop_detected(bytes: Vec<u8>, headers: Option<Headers>, version: HttpVersion) -> (r: Response)
        ensures
            spec_built(r, version, 508, "Loop Detected"@, bytes@, headers),
    {
        Response::new(version, 508, "Loop Detected", bytes, headers)
    }

    /// 510 Not Extended.
    pub fn not_extended(bytes: Vec<u8>, headers: Option<Headers>, version: HttpVersion) -> (r: Response)
        ensures
            spec_built(r, version, 510, "Not Extended"@, bytes@, headers),
    {
        Response::new(version, 510, "Not Extended", bytes, headers)
    }

    /// 511 Network Authentication Required.
    pub fn network_authentication_required(bytes: Vec<u8>, headers: Option<Headers>, version: HttpVersion) -> (r: Response)
        ensures
            spec_built(r, version, 511, "Network Authentication Required"@, bytes@, headers),
    {
        Response::new(version, 511, "Network Authentication Required", bytes, headers)
    }
}

} // verus!
