//! The failure taxonomy: what went wrong with a request, as the caller sees it.

use vstd::prelude::*;

verus! {

/// The class of a failure.
#[derive(Clone, Copy, Debug, PartialEq, Eq, Structural)]
pub enum ErrorCode {
    /// The request was cancelled, or its task was destroyed, before a reply.
    Cancelled,
    /// The URL is not valid UTF-8 or does not parse as an absolute URL.
    Url,
    /// A header or a body chunk supplied by the caller is malformed, or the
    /// transport could not send the request.
    Request,
    /// The transport gave up following redirects.
    Redirect,
    /// The transport could not connect.
    Connect,
    /// The transport ran into a timeout.
    Timeout,
    /// The request or response body failed in transit.
    Body,
    /// Anything the transport does not classify.
    Unknown,
}

/// A terminal failure: its class and a human-readable reason.
#[derive(Debug, Clone, PartialEq, Eq)]
pub struct Error {
    pub code: ErrorCode,
    pub reason: String,
}

/// The mathematical value of an [`Error`].
pub struct ErrorView {
    pub code: ErrorCode,
    pub reason: Seq<char>,
}

impl View for Error {
    type V = ErrorView;

    open spec fn view(&self) -> ErrorView {
        ErrorView { code: self.code, reason: self.reason@ }
    }
}

/// The class of a transport failure, from the five things the transport says
/// of it: the first that holds decides, in the order timeout, redirect,
/// connect, request, body; with none of them the failure is unclassified.
pub open spec fn classify_spec(
    timeout: bool,
    redirect: bool,
    connect: bool,
    request: bool,
    body: bool,
) -> ErrorCode {
    if timeout {
        ErrorCode::Timeout
    } else if redirect {
        ErrorCode::Redirect
    } else if connect {
        ErrorCode::Connect
    } else if request {
        ErrorCode::Request
    } else if body {
        ErrorCode::Body
    } else {
        ErrorCode::Unknown
    }
}

/// The codes that a transport failure can be given.
pub open spec fn is_transport_code(code: ErrorCode) -> bool {
    code != ErrorCode::Cancelled && code != ErrorCode::Url
}

/// Classifies a transport failure (see [`classify_spec`]).
pub fn classify(timeout: bool, redirect: bool, connect: bool, request: bool, body: bool) -> (code:
    ErrorCode)
    ensures
        code == classify_spec(timeout, redirect, connect, request, body),
        is_transport_code(code),
{
    if timeout {
        ErrorCode::Timeout
    } else if redirect {
        ErrorCode::Redirect
    } else if connect {
        ErrorCode::Connect
    } else if request {
        ErrorCode::Request
    } else if body {
        ErrorCode::Body
    } else {
        ErrorCode::Unknown
    }
}

/// What the transport says of one of its failures: its answers to the five
/// questions by which a failure is classified, and its own description.
#[derive(Debug, Clone, PartialEq, Eq)]
pub struct TransportFailure {
    pub timeout: bool,
    pub redirect: bool,
    pub connect: bool,
    pub request: bool,
    pub body: bool,
    pub reason: String,
}

impl TransportFailure {
    /// The class of this failure.
    pub open spec fn code(&self) -> ErrorCode {
        classify_spec(self.timeout, self.redirect, self.connect, self.request, self.body)
    }
}

impl Error {
    /// An error of class `code` with the given reason.
    pub fn from_reason(code: ErrorCode, reason: &str) -> (e: Error)
        ensures
            e@ == (ErrorView { code, reason: reason@ }),
    {
        Error { code, reason: reason.to_owned() }
    }
}

impl From<TransportFailure> for Error {
    /// The error for a failure of the transport: classified by its answers,
    /// with its description as the reason.
    fn from(failure: TransportFailure) -> (e: Error) {
        let code = classify(
            failure.timeout,
            failure.redirect,
            failure.connect,
            failure.request,
            failure.body,
        );
        Error { code, reason: failure.reason }
    }
}

impl vstd::std_specs::convert::FromSpecImpl<TransportFailure> for Error {
    open spec fn obeys_from_spec() -> bool {
        true
    }

    open spec fn from_spec(failure: TransportFailure) -> Error {
        Error { code: failure.code(), reason: failure.reason }
    }
}

} // verus!
