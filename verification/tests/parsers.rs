use snowboard::{Headers, Method, PeerAddr, Request, Url};

fn sample_ip() -> PeerAddr {
    PeerAddr::V4 { a: 127, b: 0, c: 0, d: 1, port: 8080 }
}

#[test]
fn parsers_parse_request() {
    let request = b"HEAD / HTTP/1.1\r\nHost: localhost:8080\r\nUser-Agent: curl/xx\r\nAccept: */*\r\n\r\nBODY, BODY, BODY\nMORE BODY\n";

    let mut headers = Headers::new();
    headers.insert("Host".into(), "localhost:8080".into());
    headers.insert("User-Agent".into(), "curl/xx".into());
    headers.insert("Accept".into(), "*/*".into());

    assert_eq!(
        Request::new(request, sample_ip()).unwrap(),
        Request {
            ip: sample_ip(),
            url: "/".into(),
            method: Method::HEAD,
            body: "BODY, BODY, BODY\nMORE BODY\n".into(),
            headers,
        }
    );
}

#[test]
fn parse_invalid_utf8() {
    let mut request = b"GET / HTTP/1.1\r\nX-A: B\r\n\r\n".to_vec();

    // Invalid UTF-8 bytes
    request.push(0x80);
    request.push(0xFF);
    request.push(0xC0);

    let parsed = Request::new(&request, sample_ip()).unwrap();

    let mut headers = Headers::new();
    headers.insert("X-A".into(), "B".into());

    assert_eq!(
        parsed,
        Request {
            ip: sample_ip(),
            url: "/".into(),
            method: Method::GET,
            body: vec![0x80, 0xFF, 0xC0],
            headers,
        }
    );

    // Invalid UTF-8 bytes get converted to the replacement character (�)
    assert_eq!(parsed.text(), "���")
}

#[test]
fn test_different_amount_of_headers() {
    let base_request = b"GET / HTTP/1.1\r\nHost: localhost:8080\r\n";

    for i in 0..20 {
        let mut request = base_request.to_vec();

        for _ in 0..i {
            request.extend_from_slice(b"A: B\r\n");
        }

        request.extend_from_slice(b"\r\n");
        request.extend_from_slice(b"h");

        let parsed = Request::new(&request, sample_ip()).unwrap();

        let mut headers = Headers::new();
        for _ in 0..i {
            headers.insert("A".into(), "B".into());
        }

        headers.insert("Host".into(), "localhost:8080".into());

        assert_eq!(
            parsed,
            Request {
                ip: sample_ip(),
                url: "/".into(),
                method: Method::GET,
                body: b"h".into(),
                headers,
            }
        );
    }
}

#[test]
fn parse_url() {
    let complex = "/path/to/something?param1=value1&param2=value2&param3=value3&s=&";
    let simple = "/a/b?c=d";
    let base = "/";
    let weird = "/?&=";
    let no_query = "/a/b/c";

    let mut complex_params = Headers::new();
    complex_params.insert("param1".into(), "value1".into());
    complex_params.insert("param2".into(), "value2".into());
    complex_params.insert("param3".into(), "value3".into());
    complex_params.insert("s".into(), "".into());

    assert_eq!(
        Url::from(complex),
        Url {
            path: vec!["path".into(), "to".into(), "something".into()],
            search_params: complex_params,
            fragment: None,
        }
    );

    let mut simple_params = Headers::new();
    simple_params.insert("c".into(), "d".into());

    assert_eq!(
        Url::from(simple),
        Url {
            path: vec!["a".into(), "b".into()],
            search_params: simple_params,
            fragment: None,
        }
    );

    assert_eq!(
        Url::from(base),
        Url { path: vec![], search_params: Headers::new(), fragment: None }
    );

    assert_eq!(
        Url::from(weird),
        Url { path: vec![], search_params: Headers::new(), fragment: None }
    );

    assert_eq!(
        Url::from(no_query),
        Url {
            path: vec!["a".into(), "b".into(), "c".into()],
            search_params: Headers::new(),
            fragment: None,
        }
    );
}
