use erqwest::error::{Error, ErrorCode};
use erqwest::method::Method;
use erqwest::request::{
    build, check_headers, header_verdict, BodyMode, ReqBody, ReqData, TransportRequest,
};

fn data(url: &[u8]) -> ReqData {
    ReqData { url: url.to_vec(), headers: vec![], method: Method::Get, body: None, timeout: None }
}

fn header(name: &[u8], value: &[u8]) -> (Vec<u8>, Vec<u8>) {
    (name.to_vec(), value.to_vec())
}

#[test]
fn a_good_request_is_built() {
    let mut d = data(b"HTTP://Example.COM:80/a b?q=1#f");
    d.method = Method::Put;
    d.headers = vec![header(b"Content-Type", b"text/plain"), header(b"X-Custom", b"\tv\xfa ")];
    d.body = Some(ReqBody::Complete(vec![1, 2, 3]));
    d.timeout = Some(1500);
    assert_eq!(
        d.decode(),
        Ok(TransportRequest {
            method: Method::Put,
            url: "http://example.com/a%20b?q=1#f".to_string(),
            headers: vec![header(b"content-type", b"text/plain"), header(b"x-custom", b"\tv\xfa ")],
            timeout: Some(1500),
            body: Some(BodyMode::Complete(vec![1, 2, 3])),
        })
    );
}

#[test]
fn the_parsed_url_is_written_out_again() {
    assert_eq!(data(b"http://localhost").decode().unwrap().url, "http://localhost/");
    assert_eq!(
        data("http://bücher.example/ü".as_bytes()).decode().unwrap().url,
        "http://xn--bcher-kva.example/%C3%BC"
    );
}

#[test]
fn a_streamed_body_stays_streamed() {
    let mut d = data(b"http://localhost/");
    d.body = Some(ReqBody::Stream);
    assert_eq!(d.decode().unwrap().body, Some(BodyMode::Streamed));
    assert_eq!(data(b"http://localhost/").decode().unwrap().body, None);
}

#[test]
fn a_url_that_is_not_utf8_is_a_url_failure() {
    let e = data(b"http://localhost/\xff").decode().unwrap_err();
    assert_eq!(e.code, ErrorCode::Url);
    assert_eq!(e.reason, std::str::from_utf8(b"http://localhost/\xff").unwrap_err().to_string());
}

#[test]
fn a_url_that_does_not_parse_is_a_url_failure() {
    assert_eq!(
        data(b"not a url").decode(),
        Err(Error { code: ErrorCode::Url, reason: "relative URL without a base".to_string() })
    );
    assert_eq!(
        data(b"http://").decode(),
        Err(Error { code: ErrorCode::Url, reason: "empty host".to_string() })
    );
    assert_eq!(
        data(b"http://localhost:99999/").decode(),
        Err(Error { code: ErrorCode::Url, reason: "invalid port number".to_string() })
    );
    assert_eq!(
        data(b"").decode(),
        Err(Error { code: ErrorCode::Url, reason: "relative URL without a base".to_string() })
    );
}

#[test]
fn a_bad_header_name_is_a_request_failure() {
    for name in [&b""[..], b"a b", b"name:", b"caf\xc3\xa9", b"(x)"] {
        let mut d = data(b"http://localhost/");
        d.headers = vec![header(b"ok", b"1"), header(name, b"v")];
        assert_eq!(
            d.decode(),
            Err(Error { code: ErrorCode::Request, reason: "invalid HTTP header name".to_string() })
        );
    }
}

#[test]
fn a_bad_header_value_is_a_request_failure() {
    for value in [&b"\n"[..], b"a\rb", b"\x00", b"x\x7f", b"\x1f"] {
        let mut d = data(b"http://localhost/");
        d.headers = vec![header(b"ok", value)];
        assert_eq!(
            d.decode(),
            Err(Error {
                code: ErrorCode::Request,
                reason: "failed to parse header value".to_string()
            })
        );
    }
}

#[test]
fn header_values_of_tab_and_of_bytes_from_space_on_are_taken_as_they_are() {
    let mut value: Vec<u8> = vec![9];
    value.extend(32..127u8);
    value.extend(128..=255u8);
    let checked = check_headers(&vec![header(b"X", &value)]).unwrap();
    assert_eq!(checked, vec![header(b"x", &value)]);
    assert_eq!(check_headers(&vec![header(b"x", b"")]).unwrap(), vec![header(b"x", b"")]);
}

#[test]
fn the_first_fault_ends_the_build() {
    // the URL is judged before the headers
    let mut d = data(b"nope");
    d.headers = vec![header(b"", b"\n")];
    d.body = Some(ReqBody::Malformed);
    assert_eq!(d.decode().unwrap_err().code, ErrorCode::Url);
    // the headers in their order, the name before the value
    let mut d = data(b"http://localhost/");
    d.headers = vec![header(b"a", b"1"), header(b"b", b"\n"), header(b"", b"2")];
    d.body = Some(ReqBody::Malformed);
    assert_eq!(d.decode().unwrap_err().reason, "failed to parse header value");
    let mut d = data(b"http://localhost/");
    d.headers = vec![header(b"a", b"1"), header(b"", b"\n"), header(b"b", b"\n")];
    assert_eq!(d.decode().unwrap_err().reason, "invalid HTTP header name");
    // the body last
    let mut d = data(b"http://localhost/");
    d.headers = vec![header(b"a", b"1")];
    d.body = Some(ReqBody::Malformed);
    assert_eq!(
        d.decode(),
        Err(Error { code: ErrorCode::Request, reason: "bad request body".to_string() })
    );
}

#[test]
fn the_checked_headers_keep_their_order() {
    let given = vec![header(b"B", b"2"), header(b"a", b"1"), header(b"B", b"3")];
    assert_eq!(
        check_headers(&given),
        Ok(vec![header(b"b", b"2"), header(b"a", b"1"), header(b"b", b"3")])
    );
    assert_eq!(check_headers(&vec![]), Ok(vec![]));
    assert_eq!(
        check_headers(&vec![header(b"a", b"1"), header(b" ", b"1")]),
        Err("invalid HTTP header name".to_string())
    );
}

#[test]
fn the_verdict_on_a_header_looks_at_the_name_first() {
    assert_eq!(
        header_verdict(Ok(b"n".to_vec()), Ok(b"v".to_vec())),
        Ok((b"n".to_vec(), b"v".to_vec()))
    );
    assert_eq!(header_verdict(Err("name".to_string()), Ok(vec![])), Err("name".to_string()));
    assert_eq!(header_verdict(Ok(vec![]), Err("value".to_string())), Err("value".to_string()));
    assert_eq!(
        header_verdict(Err("name".to_string()), Err("value".to_string())),
        Err("name".to_string())
    );
}

#[test]
fn the_build_judges_url_then_headers_then_body() {
    let ok_url = || Ok("http://h/".to_string());
    let ok_headers = || Ok(vec![header(b"a", b"1")]);
    assert_eq!(
        build(Err("u".to_string()), Err("h".to_string()), Method::Get, Some(ReqBody::Malformed), None),
        Err(Error { code: ErrorCode::Url, reason: "u".to_string() })
    );
    assert_eq!(
        build(ok_url(), Err("h".to_string()), Method::Get, Some(ReqBody::Malformed), None),
        Err(Error { code: ErrorCode::Request, reason: "h".to_string() })
    );
    assert_eq!(
        build(ok_url(), ok_headers(), Method::Get, Some(ReqBody::Malformed), None),
        Err(Error { code: ErrorCode::Request, reason: "bad request body".to_string() })
    );
    assert_eq!(
        build(ok_url(), ok_headers(), Method::Delete, None, Some(7)),
        Ok(TransportRequest {
            method: Method::Delete,
            url: "http://h/".to_string(),
            headers: vec![header(b"a", b"1")],
            timeout: Some(7),
            body: None,
        })
    );
}
