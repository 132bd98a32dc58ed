use erqwest::error::{classify, Error, ErrorCode, TransportFailure};
use erqwest::method::Method;

fn failure(timeout: bool, redirect: bool, connect: bool, request: bool, body: bool) -> TransportFailure {
    TransportFailure { timeout, redirect, connect, request, body, reason: "why".to_string() }
}

/// What the transport says of one of its failures.
fn asked(e: &reqwest::Error) -> TransportFailure {
    TransportFailure {
        timeout: e.is_timeout(),
        redirect: e.is_redirect(),
        connect: e.is_connect(),
        request: e.is_request(),
        body: e.is_body(),
        reason: e.to_string(),
    }
}

#[test]
fn from_reason_keeps_code_and_reason() {
    let e = Error::from_reason(ErrorCode::Cancelled, "future dropped");
    assert_eq!(e.code, ErrorCode::Cancelled);
    assert_eq!(e.reason, "future dropped");
    let e = Error::from_reason(ErrorCode::Unknown, "");
    assert_eq!(e, Error { code: ErrorCode::Unknown, reason: String::new() });
}

#[test]
fn the_first_answer_that_holds_decides() {
    assert_eq!(classify(true, true, true, true, true), ErrorCode::Timeout);
    assert_eq!(classify(false, true, true, true, true), ErrorCode::Redirect);
    assert_eq!(classify(false, false, true, true, true), ErrorCode::Connect);
    assert_eq!(classify(false, false, false, true, true), ErrorCode::Request);
    assert_eq!(classify(false, false, false, false, true), ErrorCode::Body);
    assert_eq!(classify(false, false, false, false, false), ErrorCode::Unknown);
    assert_eq!(classify(true, false, false, false, false), ErrorCode::Timeout);
    assert_eq!(classify(false, true, false, false, false), ErrorCode::Redirect);
    assert_eq!(classify(false, false, true, false, false), ErrorCode::Connect);
    assert_eq!(classify(false, false, false, true, false), ErrorCode::Request);
    assert_eq!(classify(true, false, false, true, false), ErrorCode::Timeout);
}

#[test]
fn a_transport_failure_becomes_an_error_with_its_reason() {
    let e = Error::from(failure(false, false, true, true, false));
    assert_eq!(e, Error { code: ErrorCode::Connect, reason: "why".to_string() });
    let e: Error = failure(false, false, false, false, false).into();
    assert_eq!(e, Error { code: ErrorCode::Unknown, reason: "why".to_string() });
}

#[test]
fn a_failure_of_the_request_builder_is_unclassified() {
    let e = reqwest::Client::new().get("not a url").build().unwrap_err();
    let error = Error::from(asked(&e));
    assert_eq!(error.code, ErrorCode::Unknown);
    assert_eq!(error.reason, e.to_string());
    assert!(error.reason.starts_with("builder error"));
}

#[test]
fn a_refused_connection_is_a_connect_failure() {
    let rt = tokio::runtime::Builder::new_current_thread().enable_all().build().unwrap();
    let e = rt
        .block_on(async { reqwest::Client::new().get("http://127.0.0.1:1/").send().await })
        .unwrap_err();
    // the transport calls it a failure to send the request, too: connect wins
    assert!(e.is_connect());
    assert!(e.is_request());
    assert_eq!(Error::from(asked(&e)).code, ErrorCode::Connect);
}

#[test]
fn methods_are_named_as_the_transport_names_them() {
    let all = [
        (Method::Options, reqwest::Method::OPTIONS, "OPTIONS"),
        (Method::Get, reqwest::Method::GET, "GET"),
        (Method::Post, reqwest::Method::POST, "POST"),
        (Method::Put, reqwest::Method::PUT, "PUT"),
        (Method::Delete, reqwest::Method::DELETE, "DELETE"),
        (Method::Head, reqwest::Method::HEAD, "HEAD"),
        (Method::Trace, reqwest::Method::TRACE, "TRACE"),
        (Method::Connect, reqwest::Method::CONNECT, "CONNECT"),
        (Method::Patch, reqwest::Method::PATCH, "PATCH"),
    ];
    for (method, theirs, name) in all {
        assert_eq!(method.as_str(), name);
        assert_eq!(reqwest::Method::from_bytes(method.as_str().as_bytes()).unwrap(), theirs);
    }
}
