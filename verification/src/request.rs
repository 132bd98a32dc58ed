//! The build phase: from what the caller supplied to a request that the
//! transport can take, or to the failure that ends the request before any
//! network activity.

use crate::error::{Error, ErrorCode, ErrorView};
use crate::method::Method;
use crate::views::{header_view, headers_view, HeaderSeq};
use vstd::prelude::*;
use vstd::string::StringSliceAdditionalSpecFns;
use vstd::utf8::{decode_utf8, valid_utf8};

verus! {

/// The body of a request as the caller supplied it.
#[derive(Debug, Clone, PartialEq, Eq)]
pub enum ReqBody {
    /// The whole body, known upfront.
    Complete(Vec<u8>),
    /// The caller supplied something that is not a sequence of bytes.
    Malformed,
    /// The caller will upload the body in chunks.
    Stream,
}

/// The mathematical value of a [`ReqBody`].
pub enum ReqBodyView {
    Complete(Seq<u8>),
    Malformed,
    Stream,
}

impl View for ReqBody {
    type V = ReqBodyView;

    open spec fn view(&self) -> ReqBodyView {
        match self {
            ReqBody::Complete(b) => ReqBodyView::Complete(b@),
            ReqBody::Malformed => ReqBodyView::Malformed,
            ReqBody::Stream => ReqBodyView::Stream,
        }
    }
}

/// A request as the caller described it, nothing checked yet. The timeout is
/// in milliseconds.
#[derive(Debug, Clone, PartialEq, Eq)]
pub struct ReqData {
    pub url: Vec<u8>,
    pub headers: Vec<(Vec<u8>, Vec<u8>)>,
    pub method: Method,
    pub body: Option<ReqBody>,
    pub timeout: Option<u64>,
}

/// The mathematical value of a [`ReqData`].
pub struct ReqDataView {
    pub url: Seq<u8>,
    pub headers: HeaderSeq,
    pub method: Method,
    pub body: Option<ReqBodyView>,
    pub timeout: Option<u64>,
}

impl View for ReqData {
    type V = ReqDataView;

    open spec fn view(&self) -> ReqDataView {
        ReqDataView {
            url: self.url@,
            headers: headers_view(self.headers@),
            method: self.method,
            body: req_body_view(self.body),
            timeout: self.timeout,
        }
    }
}

/// How the body of a checked request reaches the transport.
#[derive(Debug, Clone, PartialEq, Eq)]
pub enum BodyMode {
    /// The whole body, known upfront.
    Complete(Vec<u8>),
    /// The body is fed through the upload channel until the caller signals
    /// completion or abandons it.
    Streamed,
}

/// The mathematical value of a [`BodyMode`].
pub enum BodyModeView {
    Complete(Seq<u8>),
    Streamed,
}

impl View for BodyMode {
    type V = BodyModeView;

    open spec fn view(&self) -> BodyModeView {
        match self {
            BodyMode::Complete(b) => BodyModeView::Complete(b@),
            BodyMode::Streamed => BodyModeView::Streamed,
        }
    }
}

/// A request that passed the build phase: the URL is the parsed URL written
/// out again, each header name is in canonical form. The timeout is in
/// milliseconds.
#[derive(Debug, Clone, PartialEq, Eq)]
pub struct TransportRequest {
    pub method: Method,
    pub url: String,
    pub headers: Vec<(Vec<u8>, Vec<u8>)>,
    pub timeout: Option<u64>,
    pub body: Option<BodyMode>,
}

/// The mathematical value of a [`TransportRequest`].
pub struct TransportRequestView {
    pub method: Method,
    pub url: Seq<char>,
    pub headers: HeaderSeq,
    pub timeout: Option<u64>,
    pub body: Option<BodyModeView>,
}

impl View for TransportRequest {
    type V = TransportRequestView;

    open spec fn view(&self) -> TransportRequestView {
        TransportRequestView {
            method: self.method,
            url: self.url@,
            headers: headers_view(self.headers@),
            timeout: self.timeout,
            body: match self.body {
                Some(b) => Some(b@),
                None => None,
            },
        }
    }
}

/// The value of what the build phase returns.
pub open spec fn built_view(r: Result<TransportRequest, Error>) -> Result<
    TransportRequestView,
    ErrorView,
> {
    match r {
        Ok(t) => Ok(t@),
        Err(e) => Err(e@),
    }
}

/// What the URL parser makes of a text: the parsed URL written out again, or
/// the parser's description of what is wrong.
pub uninterp spec fn url_parse(input: Seq<char>) -> Result<Seq<char>, Seq<char>>;

/// The canonical form that the transport gives a header name, where it accepts
/// the name.
pub uninterp spec fn header_name_parse(name: Seq<u8>) -> Option<Seq<u8>>;

/// What is said of a header name that the transport does not accept.
pub open spec fn header_name_fault() -> Seq<char> {
    "invalid HTTP header name"@
}

/// What is said of a header value that the transport does not accept.
pub open spec fn header_value_fault() -> Seq<char> {
    "failed to parse header value"@
}

/// What is said of a body that is not a sequence of bytes.
pub open spec fn body_fault() -> Seq<char> {
    "bad request body"@
}

/// The bytes that may stand in a header value: tab, and all from space on but
/// delete.
pub open spec fn header_value_byte(b: u8) -> bool {
    b >= 32 && b != 127 || b == 9
}

/// Whether the transport accepts a header value: every byte may stand in one.
pub open spec fn header_value_ok(value: Seq<u8>) -> bool {
    forall|i: int| 0 <= i < value.len() ==> header_value_byte(#[trigger] value[i])
}

/// Whether the transport accepts a header.
pub open spec fn header_ok(h: (Seq<u8>, Seq<u8>)) -> bool {
    header_name_parse(h.0) is Some && header_value_ok(h.1)
}

/// An accepted header as the transport gets it: the name in canonical form,
/// the value as it was.
pub open spec fn header_canonical(h: (Seq<u8>, Seq<u8>)) -> (Seq<u8>, Seq<u8>) {
    (header_name_parse(h.0).unwrap(), h.1)
}

/// What is said of a header that is not accepted: the name is looked at
/// before the value.
pub open spec fn header_fault(h: (Seq<u8>, Seq<u8>)) -> Seq<char> {
    if header_name_parse(h.0) is None {
        header_name_fault()
    } else {
        header_value_fault()
    }
}

/// Whether `i` is the place of the first header that is not accepted.
pub open spec fn is_first_bad_header(hs: HeaderSeq, i: int) -> bool {
    &&& 0 <= i < hs.len()
    &&& !header_ok(hs[i])
    &&& forall|j: int| 0 <= j < i ==> header_ok(#[trigger] hs[j])
}

/// Whether every header is accepted.
pub open spec fn headers_ok(hs: HeaderSeq) -> bool {
    forall|i: int| 0 <= i < hs.len() ==> header_ok(#[trigger] hs[i])
}

/// The place of the first header that is not accepted, where there is one.
pub open spec fn first_bad_header(hs: HeaderSeq) -> int {
    choose|i: int| is_first_bad_header(hs, i)
}

/// The headers in canonical form, in their order.
pub open spec fn headers_canonical(hs: HeaderSeq) -> HeaderSeq {
    hs.map_values(|h: (Seq<u8>, Seq<u8>)| header_canonical(h))
}

/// How a body that is not malformed reaches the transport.
pub open spec fn body_mode(body: Option<ReqBodyView>) -> Option<BodyModeView> {
    match body {
        Some(ReqBodyView::Complete(b)) => Some(BodyModeView::Complete(b)),
        Some(ReqBodyView::Stream) => Some(BodyModeView::Streamed),
        _ => None,
    }
}

/// What the check of the headers comes to: the headers in canonical form,
/// or what is said of the first that is not accepted.
pub open spec fn headers_spec(hs: HeaderSeq) -> Result<HeaderSeq, Seq<char>> {
    if headers_ok(hs) {
        Ok(headers_canonical(hs))
    } else {
        Err(header_fault(hs[first_bad_header(hs)]))
    }
}

/// What the check of one header comes to, from what the transport makes of
/// its name and of its value: the name is looked at before the value.
pub open spec fn header_verdict_spec(
    name: Result<Seq<u8>, Seq<char>>,
    value: Result<Seq<u8>, Seq<char>>,
) -> Result<(Seq<u8>, Seq<u8>), Seq<char>> {
    match name {
        Err(reason) => Err(reason),
        Ok(n) => match value {
            Err(reason) => Err(reason),
            Ok(v) => Ok((n, v)),
        },
    }
}

/// The outcome of the build phase, from what the URL parser made of the URL
/// and what the check of the headers came to. The URL is judged first, then
/// the headers, then the body; the first fault ends the build. A bad URL is
/// a `Url` failure, a bad header or body a `Request` failure.
pub open spec fn build_spec(
    url: Result<Seq<char>, Seq<char>>,
    headers: Result<HeaderSeq, Seq<char>>,
    method: Method,
    body: Option<ReqBodyView>,
    timeout: Option<u64>,
) -> Result<TransportRequestView, ErrorView> {
    match url {
        Err(reason) => Err(ErrorView { code: ErrorCode::Url, reason }),
        Ok(parsed) => match headers {
            Err(reason) => Err(ErrorView { code: ErrorCode::Request, reason }),
            Ok(canonical) => if body == Some(ReqBodyView::Malformed) {
                Err(ErrorView { code: ErrorCode::Request, reason: body_fault() })
            } else {
                Ok(
                    TransportRequestView {
                        method,
                        url: parsed,
                        headers: canonical,
                        timeout,
                        body: body_mode(body),
                    },
                )
            },
        },
    }
}

/// The outcome of the build phase for a request whose URL is the text `url`.
pub open spec fn decode_spec(url: Seq<char>, d: ReqDataView) -> Result<
    TransportRequestView,
    ErrorView,
> {
    build_spec(url_parse(url), headers_spec(d.headers), d.method, d.body, d.timeout)
}

/// The value of a text, or of the text that says why there is none.
pub open spec fn text_view(r: Result<String, String>) -> Result<Seq<char>, Seq<char>> {
    match r {
        Ok(text) => Ok(text@),
        Err(reason) => Err(reason@),
    }
}

/// The value of bytes, or of the text that says why there are none.
pub open spec fn bytes_view(r: Result<Vec<u8>, String>) -> Result<Seq<u8>, Seq<char>> {
    match r {
        Ok(bytes) => Ok(bytes@),
        Err(reason) => Err(reason@),
    }
}

/// The value of checked headers, or of the text that says why there are none.
pub open spec fn checked_view(r: Result<Vec<(Vec<u8>, Vec<u8>)>, String>) -> Result<
    HeaderSeq,
    Seq<char>,
> {
    match r {
        Ok(hs) => Ok(headers_view(hs@)),
        Err(reason) => Err(reason@),
    }
}

#[verifier::external_type_specification]
#[verifier::external_body]
pub struct ExUtf8Error(core::str::Utf8Error);

/// `core::str::from_utf8`: a byte slice is a string exactly if it is valid
/// UTF-8, and the string then has those bytes.
pub assume_specification[ core::str::from_utf8 ](v: &[u8]) -> (r: Result<
    &str,
    core::str::Utf8Error,
>)
    ensures
        r is Ok <==> valid_utf8(v@),
        r matches Ok(s) ==> s.spec_bytes() == v@,
;

/// `reqwest::Url::parse`, with the parsed URL written out as `String::from`
/// gives it and a failure as it describes itself: the outcome is a function
/// of the text alone, here named [`url_parse`].
#[verifier::external_body]
fn parse_url(input: &str) -> (r: Result<String, String>)
    ensures
        text_view(r) == url_parse(input@),
{
    match reqwest::Url::parse(input) {
        Ok(url) => Ok(String::from(url)),
        Err(e) => Err(e.to_string()),
    }
}

/// `reqwest::header::HeaderName::from_bytes`, with the name handed out as
/// bytes: an accepted name comes back in the canonical form named
/// [`header_name_parse`]; a refused one is described by the fixed text of
/// [`header_name_fault`].
#[verifier::external_body]
fn parse_header_name(name: &[u8]) -> (r: Result<Vec<u8>, String>)
    ensures
        match r {
            Ok(canonical) => header_name_parse(name@) == Some(canonical@),
            Err(reason) => header_name_parse(name@) is None && reason@ == header_name_fault(),
        },
{
    match reqwest::header::HeaderName::from_bytes(name) {
        Ok(parsed) => Ok(parsed.as_str().as_bytes().to_vec()),
        Err(e) => Err(e.to_string()),
    }
}

/// `reqwest::header::HeaderValue::from_bytes`, with the value handed out as
/// bytes: a value is accepted exactly if each of its bytes may stand in a
/// header value, and comes back unchanged; a refused one is described by the
/// fixed text of [`header_value_fault`].
#[verifier::external_body]
fn parse_header_value(value: &[u8]) -> (r: Result<Vec<u8>, String>)
    ensures
        match r {
            Ok(parsed) => header_value_ok(value@) && parsed@ == value@,
            Err(reason) => !header_value_ok(value@) && reason@ == header_value_fault(),
        },
{
    match reqwest::header::HeaderValue::from_bytes(value) {
        Ok(parsed) => Ok(parsed.as_bytes().to_vec()),
        Err(e) => Err(e.to_string()),
    }
}

/// The first bad header is where the search for it stops.
proof fn lemma_first_bad_header(hs: HeaderSeq, i: int)
    requires
        is_first_bad_header(hs, i),
    ensures
        first_bad_header(hs) == i,
        !headers_ok(hs),
{
    let k = first_bad_header(hs);
    assert(is_first_bad_header(hs, k));
    if k < i {
        assert(header_ok(hs[k]));
    }
    if i < k {
        assert(header_ok(hs[i]));
    }
}

/// What the check of one header comes to, from what the transport made of
/// its name and of its value: the header as the transport gets it, or the
/// reason for which it is refused, the name being looked at first.
pub fn header_verdict(name: Result<Vec<u8>, String>, value: Result<Vec<u8>, String>) -> (r: Result<
    (Vec<u8>, Vec<u8>),
    String,
>)
    ensures
        match r {
            Ok(h) => header_verdict_spec(bytes_view(name), bytes_view(value)) == Ok::<
                (Seq<u8>, Seq<u8>),
                Seq<char>,
            >(header_view(h)),
            Err(reason) => header_verdict_spec(bytes_view(name), bytes_view(value)) == Err::<
                (Seq<u8>, Seq<u8>),
                Seq<char>,
            >(reason@),
        },
{
    match name {
        Err(reason) => Err(reason),
        Ok(n) => match value {
            Err(reason) => Err(reason),
            Ok(v) => Ok((n, v)),
        },
    }
}

/// Checks the headers in their order and hands them back in canonical form,
/// or the reason for which the first bad one is refused.
pub fn check_headers(headers: &Vec<(Vec<u8>, Vec<u8>)>) -> (r: Result<
    Vec<(Vec<u8>, Vec<u8>)>,
    String,
>)
    ensures
        checked_view(r) == headers_spec(headers_view(headers@)),
{
    let ghost hs = headers_view(headers@);
    let mut out: Vec<(Vec<u8>, Vec<u8>)> = Vec::new();
    let mut i: usize = 0;
    while i < headers.len()
        invariant
            i <= headers.len(),
            hs == headers_view(headers@),
            out@.len() == i,
            forall|j: int| 0 <= j < i ==> header_ok(#[trigger] hs[j]),
            forall|j: int| 0 <= j < i ==> header_view(#[trigger] out@[j]) == header_canonical(hs[j]),
        decreases headers.len() - i,
    {
        let header = &headers[i];
        assert(hs[i as int] == header_view(headers@[i as int]));
        let name = parse_header_name(header.0.as_slice());
        let value = parse_header_value(header.1.as_slice());
        match header_verdict(name, value) {
            Ok(checked) => {
                out.push(checked);
            },
            Err(reason) => {
                proof {
                    lemma_first_bad_header(hs, i as int);
                }
                return Err(reason);
            },
        }
        i += 1;
    }
    assert(headers_view(out@) =~= headers_canonical(hs));
    Ok(out)
}

/// The value of a body that may not have been given.
pub open spec fn req_body_view(body: Option<ReqBody>) -> Option<ReqBodyView> {
    match body {
        Some(b) => Some(b@),
        None => None,
    }
}

/// The outcome of the build phase, from what the URL parser made of the URL
/// and what the check of the headers came to (see [`build_spec`]).
pub fn build(
    url: Result<String, String>,
    headers: Result<Vec<(Vec<u8>, Vec<u8>)>, String>,
    method: Method,
    body: Option<ReqBody>,
    timeout: Option<u64>,
) -> (r: Result<TransportRequest, Error>)
    ensures
        built_view(r) == build_spec(
            text_view(url),
            checked_view(headers),
            method,
            req_body_view(body),
            timeout,
        ),
{
    let url = match url {
        Ok(parsed) => parsed,
        Err(reason) => {
            return Err(Error { code: ErrorCode::Url, reason });
        },
    };
    let headers = match headers {
        Ok(canonical) => canonical,
        Err(reason) => {
            return Err(Error { code: ErrorCode::Request, reason });
        },
    };
    let body = match body {
        Some(ReqBody::Complete(bytes)) => Some(BodyMode::Complete(bytes)),
        Some(ReqBody::Stream) => Some(BodyMode::Streamed),
        Some(ReqBody::Malformed) => {
            return Err(Error::from_reason(ErrorCode::Request, "bad request body"));
        },
        None => None,
    };
    Ok(TransportRequest { method, url, headers, timeout, body })
}

impl ReqData {
    /// The build phase. A URL that is not valid UTF-8 is a `Url` failure with
    /// the reason that the standard library gives; for a URL that is, the
    /// outcome is that of [`decode_spec`] on its text.
    pub fn decode(self) -> (r: Result<TransportRequest, Error>)
        ensures
            valid_utf8(self.url@) ==> built_view(r) == decode_spec(decode_utf8(self.url@), self@),
            !valid_utf8(self.url@) ==> r is Err && r->Err_0.code == ErrorCode::Url,
    {
        broadcast use vstd::utf8::encode_utf8_decode_utf8;

        match core::str::from_utf8(self.url.as_slice()) {
            Err(e) => Err(Error { code: ErrorCode::Url, reason: e.to_string() }),
            Ok(text) => {
                assert(text@ == decode_utf8(self.url@));
                let url = parse_url(text);
                let headers = check_headers(&self.headers);
                build(url, headers, self.method, self.body, self.timeout)
            },
        }
    }
}

} // verus!
