use snowboard::{
    bad_request_text, connection_step, json_response, keep_alive, looks_like_tls,
    redirect_response, ConnectionAction, Headers, HttpVersion, Method, PeerAddr, Request,
    Response, ResponseLike, ServerConfig, Url, DEFAULT_BUFFER_SIZE,
};

fn peer() -> PeerAddr {
    PeerAddr::V4 { a: 127, b: 0, c: 0, d: 1, port: 8080 }
}

#[test]
fn method_tokens() {
    assert_eq!(Method::from_token(b"GET"), Method::GET);
    assert_eq!(Method::from_token(b"POST"), Method::POST);
    assert_eq!(Method::from_token(b"HEAD"), Method::HEAD);
    assert_eq!(Method::from_token(b"TRACE"), Method::TRACE);
    assert_eq!(Method::from_token(b"BREW"), Method::UNKNOWN);
    assert_eq!(Method::from_token(b""), Method::UNKNOWN);
    assert_eq!(Method::GET.as_str(), "GET");
    assert_eq!(Method::UNKNOWN.as_str(), "UNKNOWN");
}

#[test]
fn version_tokens() {
    assert_eq!(HttpVersion::from_token("HTTP/1.0"), HttpVersion::V1_0);
    assert_eq!(HttpVersion::from_token("HTTP/1.1"), HttpVersion::V1_1);
    assert_eq!(HttpVersion::from_token("HTTP/9.9"), HttpVersion::UNKNOWN);
    assert_eq!(HttpVersion::V2_0.as_str(), "HTTP/2.0");
    // An unknown version still serializes as a version the engine speaks.
    assert_eq!(HttpVersion::UNKNOWN.as_str(), "HTTP/1.1");
}

#[test]
fn status_line_rendering() {
    let r = Response::network_authentication_required(vec![], None, HttpVersion::V1_1);
    assert_eq!(r.to_string(), "HTTP/1.1 511 Network Authentication Required\r\n\r\n");
    let r = Response::continue_(vec![], None, HttpVersion::V1_0);
    assert_eq!(r.to_string(), "HTTP/1.0 100 Continue\r\n\r\n");
    let r = Response::payload_too_large(vec![], None, HttpVersion::V1_1);
    assert_eq!(r.to_string(), "HTTP/1.1 413 Payload Too Large\r\n\r\n");
}

#[test]
fn to_bytes_appends_raw_body() {
    let mut r = Response::ok(vec![0x80, 0xFF], None, HttpVersion::V1_1);
    let bytes = r.to_bytes();
    let mut expected = b"HTTP/1.1 200 Ok\r\n\r\n".to_vec();
    expected.extend_from_slice(&[0x80, 0xFF]);
    assert_eq!(bytes, expected);
    assert!(r.is_empty());
}

#[test]
fn headers_insert_overwrites() {
    let mut h = Headers::new();
    h.insert("Key".into(), "first".into());
    h.insert("Key".into(), "second".into());
    assert_eq!(h.num_entries(), 1);
    assert_eq!(h.get("Key").map(|v| v.as_str()), Some("second"));
    assert!(h.contains_key("Key"));
    assert!(!h.contains_key("key"));
}

#[test]
fn response_header_helpers() {
    let mut r = Response::default();
    r.set_header("X-A", "1".to_string());
    r.content_type("text/html".to_string());
    r.set_content_length(1234);
    let h = r.headers.as_ref().unwrap();
    assert_eq!(h.get("X-A").map(|v| v.as_str()), Some("1"));
    assert_eq!(h.get("Content-Type").map(|v| v.as_str()), Some("text/html"));
    assert_eq!(h.get("Content-Length").map(|v| v.as_str()), Some("1234"));
    assert_eq!(r.len(), 0);
}

#[test]
fn default_headers_dated() {
    let r = Response::ok(b"hello".to_vec(), None, HttpVersion::V1_1)
        .with_default_headers_dated("Sun, 12 Oct 2025 00:00:00 +0000".to_string());
    let h = r.headers.as_ref().unwrap();
    assert_eq!(h.get("Content-Length").map(|v| v.as_str()), Some("5"));
    assert_eq!(h.get("Server").map(|v| v.as_str()), Some("Snowboard"));
    assert_eq!(
        h.get("Date").map(|v| v.as_str()),
        Some("Sun, 12 Oct 2025 00:00:00 +0000")
    );
}

#[test]
fn default_headers_now() {
    let r = Response::default().with_default_headers();
    let h = r.headers.as_ref().unwrap();
    assert!(h.contains_key("Date"));
    assert_eq!(h.get("Content-Length").map(|v| v.as_str()), Some("0"));
    let unchanged = Response::default().maybe_add_defaults(false);
    assert!(unchanged.headers.is_none());
}

#[test]
fn ws_accept_token() {
    // The worked example of the WebSocket protocol specification.
    assert_eq!(
        snowboard::compute_accept("dGhlIHNhbXBsZSBub25jZQ=="),
        "s3pPLMBiTxaQ9kYGzzhZRbK+xOo="
    );
}

#[test]
fn ws_upgrade_response() {
    let bytes = b"GET /chat HTTP/1.1\r\nUpgrade: websocket\r\nSec-WebSocket-Key: dGhlIHNhbXBsZSBub25jZQ==\r\n\r\n";
    let req = Request::new(bytes, peer()).unwrap();
    assert!(req.is_websocket());
    let resp = req.upgrade_response().unwrap();
    assert_eq!(resp.status, 101);
    let h = resp.headers.as_ref().unwrap();
    assert_eq!(h.get("Upgrade").map(|v| v.as_str()), Some("websocket"));
    assert_eq!(h.get("Connection").map(|v| v.as_str()), Some("Upgrade"));
    assert_eq!(
        h.get("Sec-WebSocket-Accept").map(|v| v.as_str()),
        Some("s3pPLMBiTxaQ9kYGzzhZRbK+xOo=")
    );
}

#[test]
fn ws_upgrade_needs_key() {
    let bytes = b"GET /chat HTTP/1.1\r\nUpgrade: websocket\r\n\r\n";
    let req = Request::new(bytes, peer()).unwrap();
    assert!(!req.is_websocket());
    assert!(req.upgrade_response().is_none());
}

#[test]
fn step_payload_too_large() {
    let config = ServerConfig::new(8);
    let bytes = b"GET / HTTP/1.1\r\n\r\n";
    match connection_step(bytes, &config, None, peer()) {
        ConnectionAction::RejectTooLarge(resp) => {
            assert_eq!(resp.status, 413);
            assert_eq!(resp.to_string(), "HTTP/1.1 413 Payload Too Large\r\n\r\n");
        },
        // An oversized read never yields a request, partially parsed or not.
        _ => panic!("oversized read must be rejected with 413"),
    }
}

#[test]
fn step_empty_read() {
    let config = ServerConfig::default();
    match connection_step(b"", &config, None, peer()) {
        ConnectionAction::RejectBadRequest(resp) => assert_eq!(resp.status, 400),
        _ => panic!("empty read must be rejected with 400"),
    }
}

#[test]
fn step_parse_failure() {
    let config = ServerConfig::default();
    match connection_step(b"garbage", &config, None, peer()) {
        ConnectionAction::RejectBadRequest(mut resp) => {
            assert_eq!(resp.status, 400);
            assert_eq!(
                resp.to_bytes(),
                b"HTTP/1.1 400 Bad Request\r\n\r\nFailed to parse request".to_vec()
            );
        },
        _ => panic!("unparsable bytes must be rejected with 400"),
    }
}

#[test]
fn step_invalid_utf8_url_is_rejected() {
    let config = ServerConfig::default();
    let mut bytes = b"GET /".to_vec();
    bytes.push(0xFF);
    bytes.extend_from_slice(b" HTTP/1.1\r\n\r\n");
    match connection_step(&bytes, &config, None, peer()) {
        ConnectionAction::RejectBadRequest(resp) => assert_eq!(resp.status, 400),
        _ => panic!("a URL that is not UTF-8 must be rejected"),
    }
}

#[test]
fn step_keep_alive_decision() {
    let config = ServerConfig::default();
    let ka = b"GET / HTTP/1.1\r\nconnection: keep-alive\r\n\r\n";
    match connection_step(ka, &config, None, peer()) {
        ConnectionAction::Respond(req, keep) => {
            assert_eq!(req.method, Method::GET);
            assert!(keep);
        },
        _ => panic!("a parsed request must reach the handler"),
    }
    let close = b"GET / HTTP/1.1\r\nconnection: close\r\n\r\n";
    match connection_step(close, &config, None, peer()) {
        ConnectionAction::Respond(_, keep) => assert!(!keep),
        _ => panic!("a parsed request must reach the handler"),
    }
    let absent = b"GET / HTTP/1.1\r\n\r\n";
    match connection_step(absent, &config, None, peer()) {
        ConnectionAction::Respond(req, keep) => {
            assert!(!keep);
            assert!(!keep_alive(&req));
        },
        _ => panic!("a parsed request must reach the handler"),
    }
}

#[test]
fn step_websocket_route() {
    let config = ServerConfig::default();
    let bytes = b"GET /ws/chat HTTP/1.1\r\nUpgrade: websocket\r\nSec-WebSocket-Key: x\r\n\r\n";
    match connection_step(bytes, &config, Some("/ws"), peer()) {
        ConnectionAction::Upgrade(req) => assert_eq!(req.url, "/ws/chat"),
        _ => panic!("a request on the WebSocket route must upgrade"),
    }
    match connection_step(bytes, &config, Some("/other"), peer()) {
        ConnectionAction::Respond(_, _) => {},
        _ => panic!("a request off the WebSocket route goes to the handler"),
    }
}

#[test]
fn tls_sniffing() {
    assert!(looks_like_tls(&[0x16, 0x03]));
    assert!(looks_like_tls(&[0x16, 0x03, 0x01]));
    assert!(!looks_like_tls(&[0x47, 0x45]));
    assert!(!looks_like_tls(&[0x16]));
    assert!(!looks_like_tls(&[]));
}

#[test]
fn https_redirect() {
    let buffer = b"GET /path HTTP/1.1\r\nHost: x\r\n\r\n";
    let resp = redirect_response(buffer, "localhost:3000");
    assert_eq!(resp.status, 301);
    let h = resp.headers.as_ref().unwrap();
    assert_eq!(
        h.get("Location").map(|v| v.as_str()),
        Some("https://localhost:3000/path")
    );
    assert_eq!(h.get("Connection").map(|v| v.as_str()), Some("keep-alive"));
    assert_eq!(h.get("Content-Length").map(|v| v.as_str()), Some("0"));
}

#[test]
fn pretty_addresses() {
    let req = Request::new(b"GET / HTTP/1.1\r\n\r\n", peer()).unwrap();
    assert_eq!(req.pretty_ip(), "localhost:8080");
    let other = Request::new(
        b"GET / HTTP/1.1\r\n\r\n",
        PeerAddr::V4 { a: 10, b: 1, c: 2, d: 3, port: 80 },
    )
    .unwrap();
    assert_eq!(other.pretty_ip(), "10.1.2.3:80");
    let v6 = Request::new(
        b"GET / HTTP/1.1\r\n\r\n",
        PeerAddr::V6 { ip: "::1".to_string(), loopback: true, port: 9000 },
    )
    .unwrap();
    assert_eq!(v6.pretty_ip(), "localhost:9000");
    let v6_other = Request::new(
        b"GET / HTTP/1.1\r\n\r\n",
        PeerAddr::V6 { ip: "2001:db8::2".to_string(), loopback: false, port: 443 },
    )
    .unwrap();
    assert_eq!(v6_other.pretty_ip(), "2001:db8::2:443");
}

#[test]
fn request_accessors() {
    let bytes = b"POST /a/b?c=d HTTP/1.1\r\nHost: h\r\n\r\nbody";
    let mut req = Request::new(bytes, peer()).unwrap();
    assert_eq!(req.get_header("Host"), Some("h"));
    assert_eq!(req.get_header("Missing"), None);
    assert_eq!(req.get_header_or("Missing", "fallback"), "fallback");
    assert!(req.has_header("Host"));
    req.set_header("Host", "other");
    assert_eq!(req.get_header("Host"), Some("other"));
    assert_eq!(req.len(), 4);
    assert!(!req.is_empty());
    assert_eq!(req.text(), "body");
    let url = req.parse_url();
    assert_eq!(url.at(0), Some("a"));
    assert_eq!(url.at(2), None);
    assert_eq!(url.search_param("c"), Some("d"));
    assert_eq!(url.search_param("x"), None);
}

#[test]
fn url_fragment() {
    let url = Url::from("/a?b=c#frag");
    assert_eq!(url.fragment.as_deref(), Some("frag"));
    assert_eq!(url.search_param("b"), Some("c"));
    let plain = Url::from("/a?b=c");
    assert_eq!(plain.fragment, None);
}

#[test]
fn header_lines_are_trimmed() {
    let bytes = b"GET / HTTP/1.1\r\n  Key  :   value with spaces  \r\n\r\n";
    let req = Request::new(bytes, peer()).unwrap();
    assert_eq!(req.get_header("Key"), Some("value with spaces"));
}

#[test]
fn header_without_separator_fails() {
    let bytes = b"GET / HTTP/1.1\r\nNo separator here\r\n\r\n";
    assert!(Request::new(bytes, peer()).is_none());
}

#[test]
fn request_line_needs_three_tokens() {
    assert!(Request::new(b"GET", peer()).is_none());
    assert!(Request::new(b"GET /", peer()).is_none());
    assert!(Request::new(b"GET / HTTP/1.1", peer()).is_some());
}

#[test]
fn response_like_conversions() {
    let r = "text".to_response();
    assert_eq!(r.status, 200);
    assert_eq!(r.bytes, b"text".to_vec());

    let r = "owned".to_string().to_response();
    assert_eq!(r.bytes, b"owned".to_vec());

    let r = vec![1u8, 2, 3].to_response();
    assert_eq!(r.bytes, vec![1u8, 2, 3]);

    let r = ().to_response();
    assert_eq!(r, Response::default());

    let ok: Result<&str, Response> = Ok("fine");
    assert_eq!(ok.to_response().status, 200);
    let err: Result<&str, Response> =
        Err(Response::not_found(vec![], None, HttpVersion::V1_1));
    assert_eq!(err.to_response().status, 404);
}

#[test]
fn json_conversions() {
    let value: serde_json::Value = serde_json::from_str("{\"foo\":1}").unwrap();
    let expected = serde_json::to_vec(&value).unwrap();
    let r = value.to_response();
    assert_eq!(r.status, 200);
    assert_eq!(r.bytes, expected);
    let h = r.headers.as_ref().unwrap();
    assert_eq!(
        h.get("Content-Type").map(|v| v.as_str()),
        Some("application/json; charset=utf-8")
    );

    let error = serde_json::from_str::<serde_json::Value>("{").unwrap_err();
    let r = error.to_response();
    assert_eq!(r.status, 400);
    assert!(!r.bytes.is_empty());
}

#[test]
fn send_to_writes_wire_bytes() {
    let mut out: Vec<u8> = Vec::new();
    let mut resp = Response::not_found("Custom body".into(), None, HttpVersion::V1_1);
    resp.send_to(&mut out).unwrap();
    assert_eq!(out, b"HTTP/1.1 404 Not Found\r\n\r\nCustom body".to_vec());
}

#[test]
fn server_config_defaults() {
    let config = ServerConfig::default();
    assert_eq!(config.buffer_size, DEFAULT_BUFFER_SIZE);
    assert!(!config.insert_default_headers);
    let config = ServerConfig::new(1024).with_default_headers().with_buffer_size(2048);
    assert_eq!(config.buffer_size, 2048);
    assert!(config.insert_default_headers);
}

#[test]
fn set_bytes_replaces_body() {
    let mut r = Response::default();
    r.set_bytes(b"abc");
    assert_eq!(r.bytes, b"abc".to_vec());
    let r2 = Response::default().with_header("X", "y".to_string());
    assert_eq!(r2.headers.as_ref().unwrap().get("X").map(|v| v.as_str()), Some("y"));
    let r3 = Response::default().with_content_type("text/css".to_string());
    assert_eq!(
        r3.headers.as_ref().unwrap().get("Content-Type").map(|v| v.as_str()),
        Some("text/css")
    );
}

#[test]
fn url_to_string() {
    let url = Url::from("/a/b?c=d&e=f");
    assert_eq!(url.to_string(), "a/b?c=d&e=f");
    assert_eq!(Url::from("/").to_string(), "?");
    assert_eq!(Url::from("/x").to_string(), "x?");
}

#[test]
fn json_reply_assembly() {
    let r = json_response(b"[1,2]".to_vec());
    assert_eq!(r.status, 200);
    assert_eq!(r.bytes, b"[1,2]".to_vec());
    assert_eq!(
        r.headers.as_ref().unwrap().get("Content-Type").map(|v| v.as_str()),
        Some("application/json; charset=utf-8")
    );

    let r = bad_request_text("oops".to_string());
    assert_eq!(r.status, 400);
    assert_eq!(r.bytes, b"oops".to_vec());
    assert_eq!(
        r.headers.as_ref().unwrap().get("Content-Type").map(|v| v.as_str()),
        Some("text/plain; charset=utf-8")
    );
}

#[test]
fn result_conversion_dispatch() {
    let ok: Result<&str, serde_json::Error> = Ok("fine");
    let r = ok.to_response();
    assert_eq!(r.status, 200);
    assert_eq!(r.bytes, b"fine".to_vec());

    let err: Result<&str, serde_json::Error> =
        Err(serde_json::from_str::<serde_json::Value>("{").unwrap_err());
    let r = err.to_response();
    assert_eq!(r.status, 400);
}
