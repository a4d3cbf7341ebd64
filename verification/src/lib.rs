//! A minimal HTTP/1.1 server engine.
//!
//! The crate turns raw bytes read from a socket into a structured
//! [`Request`], serializes a [`Response`] back to wire bytes, computes the
//! WebSocket opening handshake, and decides the per-connection lifecycle
//! (keep-alive, TLS sniffing, payload limits). All protocol logic is
//! verified; the surrounding socket I/O is left to the embedding program.

use vstd::prelude::*;

mod addr;
mod headers;
mod http;
mod request;
mod respond;
mod response;
mod server;
mod text;
mod url;
mod ws;

pub use addr::{format_addr, PeerAddr};
pub use headers::Headers;
pub use http::{HttpVersion, Method};
pub use request::{lemma_method_token_round_trip, lemma_parse_round_trip, Request};
pub use respond::{bad_request_text, json_response, ResponseLike};
pub use response::{Response, DEFAULT_HTTP_VERSION};
pub use server::{
    connection_step, keep_alive, looks_like_tls, redirect_response, ConnectionAction, ServerConfig,
};
pub use url::Url;
pub use ws::{build_handshake, compute_accept};

verus! {

/// The size of the buffer used to read incoming requests.
pub const DEFAULT_BUFFER_SIZE: usize = 8192;

} // verus!
