use snowboard::{Headers, HttpVersion, Response, DEFAULT_HTTP_VERSION};

#[test]
fn response_generation() {
    let default_res = Response::default();

    assert_eq!(default_res.to_string(), "HTTP/1.1 200 Ok\r\n\r\n");
    assert_eq!(default_res, Response::default());

    let custom = Response::not_found("Custom body".into(), None, DEFAULT_HTTP_VERSION);

    assert_eq!(
        custom.to_string(),
        "HTTP/1.1 404 Not Found\r\n\r\nCustom body"
    );

    let mut headers = Headers::new();
    headers.insert("Content-Type".into(), "text/html".into());
    headers.insert("X-My-Header".into(), 1234.to_string());

    let with_headers = Response::ok(
        vec![], // No body
        Some(headers),
        DEFAULT_HTTP_VERSION,
    )
    .to_string();

    assert!(with_headers.contains("Content-Type: text/html"));
    assert!(with_headers.contains("X-My-Header: 1234"));
    assert!(with_headers.contains("HTTP/1.1 200 Ok"));

    let custom_http_version = Response::switching_protocols(
        vec![],                   // No body
        Some(Headers::new()),     // No headers
        HttpVersion::V3_0,
    );

    assert_eq!(
        custom_http_version.to_string(),
        "HTTP/3.0 101 Switching Protocols\r\n\r\n"
    );
}
