//! The WebSocket opening handshake: recognizing an upgrade request and
//! computing the `101 Switching Protocols` reply with its accept token.
//! The frame-level protocol after the handshake is outside this crate.

use vstd::prelude::*;
use vstd::utf8::encode_utf8;
use base64::Engine;
use sha1::Digest;
use crate::headers::Headers;
use crate::http::HttpVersion;
use crate::request::Request;
use crate::response::Response;
use crate::text::str_eq;

verus! {

/// The digest SHA-1 yields for the given bytes: twenty bytes that depend
/// on the input alone.
pub uninterp spec fn sha1_of(data: Seq<u8>) -> Seq<u8>;

/// Computes the SHA-1 digest of the given bytes.
///
/// Relies on the sha1 crate's `Sha1` hasher (the `Digest` interface): the
/// digest is twenty bytes and a function of the input alone.
#[verifier::external_body]
fn sha1_digest(data: &[u8]) -> (r: Vec<u8>)
    ensures
        r@ == sha1_of(data@),
        r@.len() == 20,
{
    let mut hasher = sha1::Sha1::new();
    hasher.update(data);
    hasher.finalize().to_vec()
}

/// The text standard base64 encoding yields for the given bytes: a
/// function of the input alone.
pub uninterp spec fn base64_of(data: Seq<u8>) -> Seq<char>;

/// Encodes bytes as base64, standard alphabet with padding.
///
/// Relies on the base64 crate's `STANDARD` engine: the padded encoding is
/// four characters for every started group of three bytes, and depends on
/// the input alone.
#[verifier::external_body]
fn base64_encode(data: &[u8]) -> (r: String)
    ensures
        r@ == base64_of(data@),
        r@.len() == 4 * ((data@.len() + 2) / 3),
{
    base64::engine::general_purpose::STANDARD.encode(data)
}

/// The fixed GUID that the WebSocket opening handshake appends to the
/// client key before hashing.
pub open spec fn spec_ws_guid() -> Seq<u8> {
    encode_utf8("258EAFA5-E914-47DA-95CA-C5AB0DC85B11"@)
}

/// The accept token owed for a client key: the base64 encoding of the
/// SHA-1 digest of the key with the handshake GUID appended.
pub open spec fn spec_accept_chars(key: Seq<char>) -> Seq<char> {
    base64_of(sha1_of(encode_utf8(key) + spec_ws_guid()))
}

/// Computes the `Sec-WebSocket-Accept` token for a client key.
pub fn compute_accept(key: &str) -> (r: String)
    ensures
        r@ == spec_accept_chars(key@),
{
    let mut data = key.as_bytes_vec();
    let mut guid = "258EAFA5-E914-47DA-95CA-C5AB0DC85B11".as_bytes_vec();
    data.append(&mut guid);
    let digest = sha1_digest(data.as_slice());
    base64_encode(digest.as_slice())
}

/// The header block of the handshake reply for a client key.
pub open spec fn spec_handshake_map(key: Seq<char>) -> Map<Seq<char>, Seq<char>> {
    Map::<Seq<char>, Seq<char>>::empty().insert("Upgrade"@, "websocket"@).insert(
        "Connection"@,
        "Upgrade"@,
    ).insert("Sec-WebSocket-Accept"@, spec_accept_chars(key))
}

/// Builds the handshake headers for a client key.
pub fn build_handshake(sec_key: &str) -> (r: Headers)
    ensures
        r@ == spec_handshake_map(sec_key@),
{
    let mut h = Headers::new();
    h.insert("Upgrade".to_owned(), "websocket".to_owned());
    h.insert("Connection".to_owned(), "Upgrade".to_owned());
    h.insert("Sec-WebSocket-Accept".to_owned(), compute_accept(sec_key));
    h
}

/// Whether a request is a usable WebSocket handshake request: the
/// `Upgrade` header equals `websocket` and a `Sec-WebSocket-Key` header
/// is present. No other header is required; in particular the protocol
/// version is not checked.
pub open spec fn spec_is_websocket(req: Request) -> bool {
    &&& req.headers@.dom().contains("Upgrade"@)
    &&& req.headers@["Upgrade"@] == "websocket"@
    &&& req.headers@.dom().contains("Sec-WebSocket-Key"@)
}

impl Request {
    /// Checks whether this is a (usable) WebSocket handshake request.
    pub fn is_websocket(&self) -> (r: bool)
        ensures
            r == spec_is_websocket(*self),
    {
        match self.get_header("Upgrade") {
            Some(v) => str_eq(v, "websocket") && self.has_header("Sec-WebSocket-Key"),
            None => false,
        }
    }

    /// The `101 Switching Protocols` reply that upgrades this request,
    /// or `None` where it is not a WebSocket handshake request. Writing
    /// the reply and speaking the frame protocol on the bare stream is
    /// the embedding program's part; the handshake consumes no bytes
    /// past the original request.
    pub fn upgrade_response(&self) -> (r: Option<Response>)
        ensures
            r is Some <==> spec_is_websocket(*self),
            r matches Some(resp) ==> {
                &&& resp.version == HttpVersion::V1_1
                &&& resp.status == 101
                &&& resp.status_text@ == "Switching Protocols"@
                &&& resp.bytes@ == Seq::<u8>::empty()
                &&& resp.headers matches Some(h) && h@ == spec_handshake_map(
                    self.headers@["Sec-WebSocket-Key"@],
                )
            },
    {
        if !self.is_websocket() {
            return None;
        }
        match self.get_header("Sec-WebSocket-Key") {
            Some(key) => {
                let handshake = build_handshake(key);
                Some(
                    Response::switching_protocols(Vec::new(), Some(handshake), HttpVersion::V1_1),
                )
            },
            None => vstd::pervasive::unreached(),
        }
    }
}

} // verus!
