use snowboard::{Headers, Method, PeerAddr, Request};

#[test]
fn main_parse_request() {
    let request = b"HEAD / HTTP/1.1\r\nHost: localhost:8080\r\nUser-Agent: curl/xx\r\nAccept: */*\r\n\r\nBODY, BODY, BODY";

    let sample_ip = PeerAddr::V4 { a: 127, b: 0, c: 0, d: 1, port: 8080 };

    let mut headers = Headers::new();
    headers.insert("Host".into(), "localhost:8080".into());
    headers.insert("User-Agent".into(), "curl/xx".into());
    headers.insert("Accept".into(), "*/*".into());

    assert_eq!(
        Request::new(&request.to_vec(), sample_ip.clone()).unwrap(),
        Request {
            ip: sample_ip,
            url: "/".into(),
            method: Method::HEAD,
            body: "BODY, BODY, BODY".into(),
            headers,
        }
    );
}
