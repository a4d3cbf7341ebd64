//! HTTP method and protocol-version tokens.

use vstd::prelude::*;
use crate::text::{bytes_eq, str_eq};

verus! {

/// Any HTTP method of the request line.
#[derive(Debug, Clone, Copy, PartialEq, Eq, Structural)]
pub enum Method {
    /// GET
    GET,
    /// POST
    POST,
    /// PUT
    PUT,
    /// DELETE
    DELETE,
    /// HEAD
    HEAD,
    /// OPTIONS
    OPTIONS,
    /// CONNECT
    CONNECT,
    /// PATCH
    PATCH,
    /// TRACE
    TRACE,
    /// Any token that is not one of the nine known methods.
    UNKNOWN,
}

/// HTTP protocol version of a request or response.
#[derive(Debug, Clone, Copy, PartialEq, Eq, Structural)]
pub enum HttpVersion {
    /// HTTP/1.0
    V1_0,
    /// HTTP/1.1
    V1_1,
    /// HTTP/2.0
    V2_0,
    /// HTTP/3.0
    V3_0,
    /// Any version token that is not one of the four known versions.
    UNKNOWN,
}

/// The bytes of the token naming a known method.
pub open spec fn spec_method_token(m: Method) -> Seq<u8> {
    match m {
        Method::GET => seq![('G' as u8), ('E' as u8), ('T' as u8)],
        Method::POST => seq![('P' as u8), ('O' as u8), ('S' as u8), ('T' as u8)],
        Method::PUT => seq![('P' as u8), ('U' as u8), ('T' as u8)],
        Method::DELETE => seq![('D' as u8), ('E' as u8), ('L' as u8), ('E' as u8), ('T' as u8), ('E' as u8)],
        Method::HEAD => seq![('H' as u8), ('E' as u8), ('A' as u8), ('D' as u8)],
        Method::OPTIONS => seq![('O' as u8), ('P' as u8), ('T' as u8), ('I' as u8), ('O' as u8), ('N' as u8), ('S' as u8)],
        Method::CONNECT => seq![('C' as u8), ('O' as u8), ('N' as u8), ('N' as u8), ('E' as u8), ('C' as u8), ('T' as u8)],
        Method::PATCH => seq![('P' as u8), ('A' as u8), ('T' as u8), ('C' as u8), ('H' as u8)],
        Method::TRACE => seq![('T' as u8), ('R' as u8), ('A' as u8), ('C' as u8), ('E' as u8)],
        Method::UNKNOWN => seq![],
    }
}

/// The method a request-line token names; tokens naming no known
/// method (the empty token among them) map to `UNKNOWN`.
pub open spec fn spec_method_of(t: Seq<u8>) -> Method {
    if t == spec_method_token(Method::GET) {
        Method::GET
    } else if t == spec_method_token(Method::POST) {
        Method::POST
    } else if t == spec_method_token(Method::PUT) {
        Method::PUT
    } else if t == spec_method_token(Method::DELETE) {
        Method::DELETE
    } else if t == spec_method_token(Method::HEAD) {
        Method::HEAD
    } else if t == spec_method_token(Method::OPTIONS) {
        Method::OPTIONS
    } else if t == spec_method_token(Method::CONNECT) {
        Method::CONNECT
    } else if t == spec_method_token(Method::PATCH) {
        Method::PATCH
    } else if t == spec_method_token(Method::TRACE) {
        Method::TRACE
    } else {
        Method::UNKNOWN
    }
}

/// Builds the token bytes of a known method.
pub fn method_token_vec(m: Method) -> (r: Vec<u8>)
    ensures
        r@ == spec_method_token(m),
{
    let r: Vec<u8> = match m {
        Method::GET => vec![('G' as u8), ('E' as u8), ('T' as u8)],
        Method::POST => vec![('P' as u8), ('O' as u8), ('S' as u8), ('T' as u8)],
        Method::PUT => vec![('P' as u8), ('U' as u8), ('T' as u8)],
        Method::DELETE => vec![('D' as u8), ('E' as u8), ('L' as u8), ('E' as u8), ('T' as u8), ('E' as u8)],
        Method::HEAD => vec![('H' as u8), ('E' as u8), ('A' as u8), ('D' as u8)],
        Method::OPTIONS => vec![('O' as u8), ('P' as u8), ('T' as u8), ('I' as u8), ('O' as u8), ('N' as u8), ('S' as u8)],
        Method::CONNECT => vec![('C' as u8), ('O' as u8), ('N' as u8), ('N' as u8), ('E' as u8), ('C' as u8), ('T' as u8)],
        Method::PATCH => vec![('P' as u8), ('A' as u8), ('T' as u8), ('C' as u8), ('H' as u8)],
        Method::TRACE => vec![('T' as u8), ('R' as u8), ('A' as u8), ('C' as u8), ('E' as u8)],
        Method::UNKNOWN => vec![],
    };
    proof {
        assert(r@ =~= spec_method_token(m));
    }
    r
}

impl Method {
    /// Parses a request-line token; unrecognized tokens yield `UNKNOWN`.
    pub fn from_token(t: &[u8]) -> (r: Method)
        ensures
            r == spec_method_of(t@),
    {
        if bytes_eq(t, method_token_vec(Method::GET).as_slice()) {
            Method::GET
        } else if bytes_eq(t, method_token_vec(Method::POST).as_slice()) {
            Method::POST
        } else if bytes_eq(t, method_token_vec(Method::PUT).as_slice()) {
            Method::PUT
        } else if bytes_eq(t, method_token_vec(Method::DELETE).as_slice()) {
            Method::DELETE
        } else if bytes_eq(t, method_token_vec(Method::HEAD).as_slice()) {
            Method::HEAD
        } else if bytes_eq(t, method_token_vec(Method::OPTIONS).as_slice()) {
            Method::OPTIONS
        } else if bytes_eq(t, method_token_vec(Method::CONNECT).as_slice()) {
            Method::CONNECT
        } else if bytes_eq(t, method_token_vec(Method::PATCH).as_slice()) {
            Method::PATCH
        } else if bytes_eq(t, method_token_vec(Method::TRACE).as_slice()) {
            Method::TRACE
        } else {
            Method::UNKNOWN
        }
    }
}


/// The characters of the token naming a known version; an unknown
/// version renders as HTTP/1.1, the only version the engine speaks.
pub open spec fn spec_version_chars(v: HttpVersion) -> Seq<char> {
    match v {
        HttpVersion::V1_0 => "HTTP/1.0"@,
        HttpVersion::V1_1 => "HTTP/1.1"@,
        HttpVersion::V2_0 => "HTTP/2.0"@,
        HttpVersion::V3_0 => "HTTP/3.0"@,
        HttpVersion::UNKNOWN => "HTTP/1.1"@,
    }
}

impl HttpVersion {
    /// The version token for the status line; unknown versions render
    /// as HTTP/1.1 rather than emitting an invalid token.
    pub fn as_str(&self) -> (r: &'static str)
        ensures
            r@ == spec_version_chars(*self),
    {
        match self {
            HttpVersion::V1_0 => "HTTP/1.0",
            HttpVersion::V1_1 => "HTTP/1.1",
            HttpVersion::V2_0 => "HTTP/2.0",
            HttpVersion::V3_0 => "HTTP/3.0",
            HttpVersion::UNKNOWN => "HTTP/1.1",
        }
    }

    /// Parses a version token; unrecognized tokens yield `UNKNOWN`.
    pub fn from_token(t: &str) -> (r: HttpVersion)
        ensures
            r == spec_version_of(t@),
    {
        if str_eq(t, "HTTP/1.0") {
            HttpVersion::V1_0
        } else if str_eq(t, "HTTP/1.1") {
            HttpVersion::V1_1
        } else if str_eq(t, "HTTP/2.0") {
            HttpVersion::V2_0
        } else if str_eq(t, "HTTP/3.0") {
            HttpVersion::V3_0
        } else {
            HttpVersion::UNKNOWN
        }
    }
}

/// The version a token names; tokens naming no known version map
/// to `UNKNOWN`.
pub open spec fn spec_version_of(t: Seq<char>) -> HttpVersion {
    if t == "HTTP/1.0"@ {
        HttpVersion::V1_0
    } else if t == "HTTP/1.1"@ {
        HttpVersion::V1_1
    } else if t == "HTTP/2.0"@ {
        HttpVersion::V2_0
    } else if t == "HTTP/3.0"@ {
        HttpVersion::V3_0
    } else {
        HttpVersion::UNKNOWN
    }
}

/// The characters naming a method.
pub open spec fn spec_method_chars(m: Method) -> Seq<char> {
    match m {
        Method::GET => "GET"@,
        Method::POST => "POST"@,
        Method::PUT => "PUT"@,
        Method::DELETE => "DELETE"@,
        Method::HEAD => "HEAD"@,
        Method::OPTIONS => "OPTIONS"@,
        Method::CONNECT => "CONNECT"@,
        Method::PATCH => "PATCH"@,
        Method::TRACE => "TRACE"@,
        Method::UNKNOWN => "UNKNOWN"@,
    }
}

impl Method {
    /// The name of the method, as the request line spells it.
    pub fn as_str(&self) -> (r: &'static str)
        ensures
            r@ == spec_method_chars(*self),
    {
        match self {
            Method::GET => "GET",
            Method::POST => "POST",
            Method::PUT => "PUT",
            Method::DELETE => "DELETE",
            Method::HEAD => "HEAD",
            Method::OPTIONS => "OPTIONS",
            Method::CONNECT => "CONNECT",
            Method::PATCH => "PATCH",
            Method::TRACE => "TRACE",
            Method::UNKNOWN => "UNKNOWN",
        }
    }
}


} // verus!


