//! The per-connection dispatcher: what one read from a connection leads
//! to. The decisions — payload limit, empty read, parse failure, the
//! WebSocket route, keep-alive — are made here; the embedding program
//! performs the reads and writes and runs the user handler.

use vstd::prelude::*;
use vstd::utf8::decode_utf8;
use crate::addr::PeerAddr;
use crate::headers::Headers;
use crate::http::HttpVersion;
use crate::request::{spec_parsed, spec_request_ok, spec_url_tok, Request};
use crate::response::{spec_built, Response};
use crate::text::{
    find_byte, lemma_find_ensures, lossy_decode, lossy_string, spec_find, str_eq, str_starts_with,
};

verus! {

/// The configuration a server is built with and every connection shares:
/// the read-buffer size and whether responses get the convenience
/// headers.
#[derive(Debug, Clone, Copy, PartialEq, Eq, Structural)]
pub struct ServerConfig {
    /// The size of the per-connection read buffer; a request read that
    /// exceeds it is rejected outright.
    pub buffer_size: usize,
    /// Whether `Content-Length`, `Date` and `Server` headers are added
    /// to every response. Opt-in: the handler may have set its own.
    pub insert_default_headers: bool,
}

impl ServerConfig {
    /// A configuration with an explicit buffer size and no convenience
    /// headers. A buffer must hold at least one byte, or nothing could
    /// ever be read into it.
    pub fn new(buffer_size: usize) -> (r: ServerConfig)
        requires
            buffer_size > 0,
        ensures
            r.buffer_size == buffer_size,
            !r.insert_default_headers,
    {
        ServerConfig { buffer_size, insert_default_headers: false }
    }

    /// Switches the convenience headers on.
    pub fn with_default_headers(self) -> (r: ServerConfig)
        ensures
            r.buffer_size == self.buffer_size,
            r.insert_default_headers,
    {
        ServerConfig { insert_default_headers: true, ..self }
    }

    /// Changes the buffer size; a buffer must hold at least one byte.
    pub fn with_buffer_size(self, size: usize) -> (r: ServerConfig)
        requires
            size > 0,
        ensures
            r.buffer_size == size,
            r.insert_default_headers == self.insert_default_headers,
    {
        ServerConfig { buffer_size: size, ..self }
    }
}

impl Default for ServerConfig {
    /// The default configuration: the default buffer size, no
    /// convenience headers.
    fn default() -> (r: ServerConfig)
        ensures
            r.buffer_size == crate::DEFAULT_BUFFER_SIZE,
            !r.insert_default_headers,
    {
        ServerConfig { buffer_size: crate::DEFAULT_BUFFER_SIZE, insert_default_headers: false }
    }
}

/// Whether the first peeked bytes of a connection look like the start
/// of a TLS handshake record.
pub fn looks_like_tls(peeked: &[u8]) -> (r: bool)
    ensures
        r == (peeked@.len() >= 2 && peeked@[0] == 0x16 && peeked@[1] == 0x03),
{
    peeked.len() >= 2 && peeked[0] == 0x16 && peeked[1] == 0x03
}

/// Whether the connection stays open after the response: a `connection`
/// header is present with a value other than `close`.
pub open spec fn spec_keep_alive(req: Request) -> bool {
    &&& req.headers@.dom().contains("connection"@)
    &&& req.headers@["connection"@] != "close"@
}

/// Decides keep-alive from the request's `connection` header: `close`
/// or no header at all closes the connection.
pub fn keep_alive(req: &Request) -> (r: bool)
    ensures
        r == spec_keep_alive(*req),
{
    match req.get_header("connection") {
        Some(v) => !str_eq(v, "close"),
        None => false,
    }
}

/// What the dispatcher does with the bytes one read yielded.
pub enum ConnectionAction {
    /// The read exceeded the configured buffer: send this
    /// `413 Payload Too Large` reply, then close.
    RejectTooLarge(Response),
    /// The read was empty, or the bytes do not parse as a request: send
    /// this `400 Bad Request` reply, then close.
    RejectBadRequest(Response),
    /// The request matched the WebSocket route: perform the opening
    /// handshake (see `Request::upgrade_response`); the connection then
    /// belongs to the frame-level protocol and the dispatcher is done.
    Upgrade(Request),
    /// An ordinary request: run the user handler on it, send the
    /// response, and keep the connection open exactly when the flag
    /// is set.
    Respond(Request, bool),
}

/// Decides what one read from a connection leads to: an oversized read
/// is rejected with `413` and never yields a request,
/// an empty read or unparsable bytes with `400`; a parsed request whose
/// URL begins with the registered WebSocket route is upgraded; any other
/// parsed request goes to the handler, with the keep-alive decision.
pub fn connection_step(
    bytes: &[u8],
    config: &ServerConfig,
    ws_path: Option<&str>,
    peer: PeerAddr,
) -> (r: ConnectionAction)
    ensures
        r is RejectTooLarge <==> bytes@.len() > config.buffer_size,
        (r matches ConnectionAction::RejectTooLarge(resp) ==> spec_built(
            resp,
            HttpVersion::V1_1,
            413,
            "Payload Too Large"@,
            Seq::empty(),
            None,
        )),
        bytes@.len() <= config.buffer_size && bytes@.len() == 0 ==> (r
            matches ConnectionAction::RejectBadRequest(resp) && spec_built(
            resp,
            HttpVersion::V1_1,
            400,
            "Bad Request"@,
            Seq::empty(),
            None,
        )),
        0 < bytes@.len() <= config.buffer_size && !spec_request_ok(bytes@) ==> (r
            matches ConnectionAction::RejectBadRequest(resp) && spec_built(
            resp,
            HttpVersion::V1_1,
            400,
            "Bad Request"@,
            vstd::utf8::encode_utf8("Failed to parse request"@),
            None,
        )),
        0 < bytes@.len() <= config.buffer_size && spec_request_ok(bytes@) ==> {
            let url = decode_utf8(spec_url_tok(bytes@));
            match ws_path {
                Some(p) => {
                    if p@.is_prefix_of(url) {
                        r matches ConnectionAction::Upgrade(req) && spec_parsed(req, bytes@, peer)
                    } else {
                        r matches ConnectionAction::Respond(req, ka) && spec_parsed(
                            req,
                            bytes@,
                            peer,
                        ) && ka == spec_keep_alive(req)
                    }
                },
                None => r matches ConnectionAction::Respond(req, ka) && spec_parsed(
                    req,
                    bytes@,
                    peer,
                ) && ka == spec_keep_alive(req),
            }
        },
{
    if bytes.len() > config.buffer_size {
        return ConnectionAction::RejectTooLarge(
            Response::payload_too_large(Vec::new(), None, HttpVersion::V1_1),
        );
    }
    if bytes.len() == 0 {
        return ConnectionAction::RejectBadRequest(
            Response::bad_request(Vec::new(), None, HttpVersion::V1_1),
        );
    }
    match Request::new(bytes, peer) {
        None => ConnectionAction::RejectBadRequest(
            Response::bad_request(
                "Failed to parse request".as_bytes_vec(),
                None,
                HttpVersion::V1_1,
            ),
        ),
        Some(req) => {
            let on_ws_route = match ws_path {
                Some(p) => str_starts_with(req.url.as_str(), p),
                None => false,
            };
            if on_ws_route {
                ConnectionAction::Upgrade(req)
            } else {
                let ka = keep_alive(&req);
                ConnectionAction::Respond(req, ka)
            }
        },
    }
}

/// The path token of a plaintext request seen on a TLS port: the bytes
/// between the first and the second space of the buffer, or up to its
/// end where no second space was read.
pub open spec fn spec_plain_path(s: Seq<u8>) -> Seq<u8> {
    match spec_find(s, 32u8) {
        None => Seq::empty(),
        Some(i) => match spec_find(s.skip(i + 1), 32u8) {
            None => s.skip(i + 1),
            Some(j) => s.skip(i + 1).take(j),
        },
    }
}

/// The `301 Moved Permanently` reply that redirects a plaintext request
/// to the same path under `https`, for a server that chooses to redirect
/// rather than serve plaintext on a TLS port. `host` is the server's own
/// formatted address.
pub fn redirect_response(buffer: &[u8], host: &str) -> (r: Response)
    ensures
        r.version == HttpVersion::V1_1,
        r.status == 301,
        r.status_text@ == "Moved Permanently"@,
        r.bytes@ == Seq::<u8>::empty(),
        r.headers matches Some(h) && h@ == Map::<Seq<char>, Seq<char>>::empty().insert(
            "Location"@,
            "https://"@ + host@ + lossy_decode(spec_plain_path(buffer@)),
        ).insert("Connection"@, "keep-alive"@).insert("Content-Length"@, "0"@),
{
    let n = buffer.len();
    proof {
        lemma_find_ensures(buffer@, 32u8);
    }
    let path: &[u8] = match find_byte(buffer, 32) {
        None => {
            proof {
                reveal_strlit("");
            }
            "".as_bytes()
        },
        Some(i) => {
            let after = vstd::slice::slice_subrange(buffer, i + 1, n);
            proof {
                assert(after@ == buffer@.skip(i + 1));
                lemma_find_ensures(after@, 32u8);
            }
            match find_byte(after, 32) {
                None => after,
                Some(j) => vstd::slice::slice_subrange(after, 0, j),
            }
        },
    };
    proof {
        assert(path@ == spec_plain_path(buffer@));
    }
    let mut location = "https://".to_owned();
    location.append(host);
    location.append(lossy_string(path).as_str());
    let mut h = Headers::new();
    h.insert("Location".to_owned(), location);
    h.insert("Connection".to_owned(), "keep-alive".to_owned());
    h.insert("Content-Length".to_owned(), "0".to_owned());
    Response::moved_permanently(Vec::new(), Some(h), HttpVersion::V1_1)
}

} // verus!
