//! What the caller names when it asks for a request or for a read: the
//! options, taken in the order in which they come, and what they add up to.

use crate::command::{ReadOpts, DEFAULT_READ_LENGTH};
use crate::method::Method;
use crate::req::Req;
use crate::request::{req_body_view, ReqBody, ReqBodyView, ReqData, ReqDataView};
use crate::views::{headers_view, HeaderSeq};
use vstd::prelude::*;

verus! {

/// How the caller wants the body of the response.
#[derive(Debug, Clone, Copy, PartialEq, Eq, Structural)]
pub enum ResponseBody {
    /// In chunks, each on request.
    Stream,
    /// Whole, with the final reply.
    Complete,
}

/// Why an operation of the caller is refused on the spot.
#[derive(Debug, Clone, PartialEq, Eq)]
pub enum ReqError {
    /// An argument is missing or is not of the kind that is asked for, or the
    /// handle can no longer be used.
    BadArg,
    /// The named key is not an option.
    BadOpt(String),
    /// The scheduler did not take the task.
    BadRuntime,
}

/// The mathematical value of a [`ReqError`].
pub enum ReqErrorView {
    BadArg,
    BadOpt(Seq<char>),
    BadRuntime,
}

impl View for ReqError {
    type V = ReqErrorView;

    open spec fn view(&self) -> ReqErrorView {
        match self {
            ReqError::BadArg => ReqErrorView::BadArg,
            ReqError::BadOpt(key) => ReqErrorView::BadOpt(key@),
            ReqError::BadRuntime => ReqErrorView::BadRuntime,
        }
    }
}

/// One option of a request, as the caller gave it. The timeout is in
/// milliseconds; `None` is no timeout.
#[derive(Debug, Clone, PartialEq, Eq)]
pub enum ReqOpt {
    Url(Vec<u8>),
    Method(Method),
    Headers(Vec<(Vec<u8>, Vec<u8>)>),
    Body(ReqBody),
    ResponseBody(ResponseBody),
    Timeout(Option<u64>),
    /// An option whose value is not of the kind that the option takes.
    Invalid,
    /// A key that is not an option of a request.
    Unknown(String),
}

/// The mathematical value of a [`ReqOpt`].
pub enum ReqOptView {
    Url(Seq<u8>),
    Method(Method),
    Headers(HeaderSeq),
    Body(ReqBodyView),
    ResponseBody(ResponseBody),
    Timeout(Option<u64>),
    Invalid,
    Unknown(Seq<char>),
}

impl View for ReqOpt {
    type V = ReqOptView;

    open spec fn view(&self) -> ReqOptView {
        match self {
            ReqOpt::Url(url) => ReqOptView::Url(url@),
            ReqOpt::Method(m) => ReqOptView::Method(*m),
            ReqOpt::Headers(hs) => ReqOptView::Headers(headers_view(hs@)),
            ReqOpt::Body(b) => ReqOptView::Body(b@),
            ReqOpt::ResponseBody(mode) => ReqOptView::ResponseBody(*mode),
            ReqOpt::Timeout(t) => ReqOptView::Timeout(*t),
            ReqOpt::Invalid => ReqOptView::Invalid,
            ReqOpt::Unknown(key) => ReqOptView::Unknown(key@),
        }
    }
}

/// The value of a list of request options.
pub open spec fn req_opts_view(opts: Seq<ReqOpt>) -> Seq<ReqOptView> {
    opts.map_values(|o: ReqOpt| o@)
}

/// A request that is accepted: what the build phase will get, and how the
/// response goes back.
#[derive(Debug, Clone, PartialEq, Eq)]
pub struct ReqConfig {
    pub data: ReqData,
    pub response_streamed: bool,
}

/// The mathematical value of a [`ReqConfig`].
pub struct ReqConfigView {
    pub data: ReqDataView,
    pub response_streamed: bool,
}

impl View for ReqConfig {
    type V = ReqConfigView;

    open spec fn view(&self) -> ReqConfigView {
        ReqConfigView { data: self.data@, response_streamed: self.response_streamed }
    }
}

impl ReqConfigView {
    /// Whether the request body is uploaded in chunks, so that the request
    /// needs an upload channel and a queue of upload commands.
    pub open spec fn upload_streamed(self) -> bool {
        self.data.body == Some(ReqBodyView::Stream)
    }
}

/// The value of what [`req`] returns.
pub open spec fn config_view(r: Result<ReqConfig, ReqError>) -> Result<
    ReqConfigView,
    ReqErrorView,
> {
    match r {
        Ok(c) => Ok(c@),
        Err(e) => Err(e@),
    }
}

/// The options of a request as far as they are taken in.
pub struct Draft {
    pub url: Option<Seq<u8>>,
    pub method: Option<Method>,
    pub headers: Option<HeaderSeq>,
    pub body: Option<ReqBodyView>,
    pub response_streamed: bool,
    pub timeout: Option<u64>,
}

impl Draft {
    /// Nothing taken in yet: the response is wanted whole, without a timeout.
    pub open spec fn empty() -> Draft {
        Draft {
            url: None,
            method: None,
            headers: None,
            body: None,
            response_streamed: false,
            timeout: None,
        }
    }

    /// One more option taken in. An option that is given again replaces what
    /// was given before; only, to ask for the whole response does not take
    /// back that it was asked for in chunks. An option that is invalid or
    /// unknown refuses the request.
    pub open spec fn apply(self, opt: ReqOptView) -> Result<Draft, ReqErrorView> {
        match opt {
            ReqOptView::Url(url) => Ok(Draft { url: Some(url), ..self }),
            ReqOptView::Method(m) => Ok(Draft { method: Some(m), ..self }),
            ReqOptView::Headers(hs) => Ok(Draft { headers: Some(hs), ..self }),
            ReqOptView::Body(b) => Ok(Draft { body: Some(b), ..self }),
            ReqOptView::ResponseBody(ResponseBody::Stream) => Ok(
                Draft { response_streamed: true, ..self },
            ),
            ReqOptView::ResponseBody(ResponseBody::Complete) => Ok(self),
            ReqOptView::Timeout(t) => Ok(Draft { timeout: t, ..self }),
            ReqOptView::Invalid => Err(ReqErrorView::BadArg),
            ReqOptView::Unknown(key) => Err(ReqErrorView::BadOpt(key)),
        }
    }

    /// All options taken in: URL and method must be there; no headers are
    /// the empty list of headers.
    pub open spec fn finish(self) -> Result<ReqConfigView, ReqErrorView> {
        if self.url is None || self.method is None {
            Err(ReqErrorView::BadArg)
        } else {
            Ok(
                ReqConfigView {
                    data: ReqDataView {
                        url: self.url.unwrap(),
                        headers: match self.headers {
                            Some(hs) => hs,
                            None => Seq::empty(),
                        },
                        method: self.method.unwrap(),
                        body: self.body,
                        timeout: self.timeout,
                    },
                    response_streamed: self.response_streamed,
                },
            )
        }
    }

    /// The options `opts` taken in one after the other, from the first on,
    /// and what they add up to. The first option that is refused refuses the
    /// request; what is missing is noticed at the end.
    pub open spec fn take_all(self, opts: Seq<ReqOptView>) -> Result<ReqConfigView, ReqErrorView>
        decreases opts.len(),
    {
        if opts.len() == 0 {
            self.finish()
        } else {
            match self.apply(opts[0]) {
                Err(e) => Err(e),
                Ok(next) => next.take_all(opts.skip(1)),
            }
        }
    }
}

/// The value of headers that may not have been given.
spec fn given_headers(hs: Option<Vec<(Vec<u8>, Vec<u8>)>>) -> Option<HeaderSeq> {
    match hs {
        Some(hs) => Some(headers_view(hs@)),
        None => None,
    }
}

/// The value of a URL that may not have been given.
spec fn given_url(url: Option<Vec<u8>>) -> Option<Seq<u8>> {
    match url {
        Some(url) => Some(url@),
        None => None,
    }
}

/// Accepts or refuses a request by its options (see [`Draft::take_all`]).
pub fn req(opts: Vec<ReqOpt>) -> (r: Result<ReqConfig, ReqError>)
    ensures
        config_view(r) == Draft::empty().take_all(req_opts_view(opts@)),
{
    let mut url: Option<Vec<u8>> = None;
    let mut method: Option<Method> = None;
    let mut headers: Option<Vec<(Vec<u8>, Vec<u8>)>> = None;
    let mut body: Option<ReqBody> = None;
    let mut response_streamed = false;
    let mut timeout: Option<u64> = None;
    let ghost given = opts@;
    let ghost all = req_opts_view(opts@);
    let ghost mut draft = Draft::empty();
    proof {
        assert(all.skip(0) =~= all);
    }
    for opt in it: opts
        invariant
            it.seq() == given,
            all == req_opts_view(given),
            draft == (Draft {
                url: given_url(url),
                method,
                headers: given_headers(headers),
                body: req_body_view(body),
                response_streamed,
                timeout,
            }),
            draft.take_all(all.skip(it.index() as int)) == Draft::empty().take_all(all),
    {
        proof {
            assert(all.skip(it.index() as int)[0] == opt@);
            assert(all.skip(it.index() as int).skip(1) =~= all.skip(it.index() + 1));
        }
        match opt {
            ReqOpt::Url(u) => {
                url = Some(u);
            },
            ReqOpt::Method(m) => {
                method = Some(m);
            },
            ReqOpt::Headers(hs) => {
                headers = Some(hs);
            },
            ReqOpt::Body(b) => {
                body = Some(b);
            },
            ReqOpt::ResponseBody(ResponseBody::Stream) => {
                response_streamed = true;
            },
            ReqOpt::ResponseBody(ResponseBody::Complete) => {},
            ReqOpt::Timeout(t) => {
                timeout = t;
            },
            ReqOpt::Invalid => {
                return Err(ReqError::BadArg);
            },
            ReqOpt::Unknown(key) => {
                return Err(ReqError::BadOpt(key));
            },
        }
        proof {
            draft = draft.apply(opt@)->Ok_0;
        }
    }
    assert(all.skip(all.len() as int).len() == 0);
    let url = match url {
        Some(url) => url,
        None => {
            return Err(ReqError::BadArg);
        },
    };
    let method = match method {
        Some(method) => method,
        None => {
            return Err(ReqError::BadArg);
        },
    };
    let headers = match headers {
        Some(headers) => headers,
        None => Vec::new(),
    };
    assert(headers_view(headers@) =~= match draft.headers {
        Some(hs) => hs,
        None => Seq::empty(),
    });
    Ok(ReqConfig { data: ReqData { url, headers, method, body, timeout }, response_streamed })
}

impl ReqConfig {
    /// Whether the request body is uploaded in chunks.
    pub fn upload_streamed(&self) -> (b: bool)
        ensures
            b == self@.upload_streamed(),
    {
        match &self.data.body {
            Some(ReqBody::Stream) => true,
            _ => false,
        }
    }

    /// The engine for this request.
    pub fn engine(&self) -> (req: Req)
        ensures
            req@ == crate::engine::ReqView::init(
                self@.upload_streamed(),
                self@.response_streamed,
            ),
    {
        Req::new(self.upload_streamed(), self.response_streamed)
    }
}

/// The share of a scheduler's time slice, in percent, that accepting a
/// request with `headers` headers is reckoned to have used: three percent,
/// and six hundredths more for each header, rounded down, and at most the
/// whole slice.
pub open spec fn timeslice_percent(headers: int) -> int {
    if (300 + 6 * headers) / 100 < 100 {
        (300 + 6 * headers) / 100
    } else {
        100
    }
}

/// The share of its time slice that the caller is to report as used (see
/// [`timeslice_percent`]).
pub fn req_consume_timeslice(headers: usize) -> (percent: i32)
    ensures
        percent == timeslice_percent(headers as int),
        3 <= percent <= 100,
{
    if headers >= 1617 {
        100
    } else {
        let percent: usize = (300 + 6 * headers) / 100;
        percent as i32
    }
}

/// What the operation that asked for the request reports once the scheduler
/// has had the task: a task that was refused is a failure of that operation.
pub fn spawn_verdict(rejected: bool) -> (r: Result<(), ReqError>)
    ensures
        r == (if rejected {
            Err::<(), ReqError>(ReqError::BadRuntime)
        } else {
            Ok::<(), ReqError>(())
        }),
{
    if rejected {
        Err(ReqError::BadRuntime)
    } else {
        Ok(())
    }
}

/// One option of a read, as the caller gave it. The period is in
/// milliseconds; `None` is no period.
#[derive(Debug, Clone, PartialEq, Eq)]
pub enum ReadOpt {
    Length(usize),
    Period(Option<u64>),
    /// An option whose value is not of the kind that the option takes.
    Invalid,
    /// A key that is not an option of a read.
    Unknown(String),
}

/// The mathematical value of a [`ReadOpt`].
pub enum ReadOptView {
    Length(usize),
    Period(Option<u64>),
    Invalid,
    Unknown(Seq<char>),
}

impl View for ReadOpt {
    type V = ReadOptView;

    open spec fn view(&self) -> ReadOptView {
        match self {
            ReadOpt::Length(n) => ReadOptView::Length(*n),
            ReadOpt::Period(p) => ReadOptView::Period(*p),
            ReadOpt::Invalid => ReadOptView::Invalid,
            ReadOpt::Unknown(key) => ReadOptView::Unknown(key@),
        }
    }
}

/// The value of a list of read options.
pub open spec fn read_opts_view(opts: Seq<ReadOpt>) -> Seq<ReadOptView> {
    opts.map_values(|o: ReadOpt| o@)
}

/// The value of what [`read`] returns.
pub open spec fn read_view(r: Result<ReadOpts, ReqError>) -> Result<ReadOpts, ReqErrorView> {
    match r {
        Ok(opts) => Ok(opts),
        Err(e) => Err(e@),
    }
}

/// The read for which the caller names nothing: of the default length,
/// without a period.
pub open spec fn default_read() -> ReadOpts {
    ReadOpts { length: DEFAULT_READ_LENGTH, period: None }
}

/// The options `opts` of a read taken in one after the other, from the first
/// on, `so_far` being what the earlier ones add up to. An option that is
/// given again replaces what was given before. The first option that is
/// invalid or unknown refuses the read.
pub open spec fn read_spec(so_far: ReadOpts, opts: Seq<ReadOptView>) -> Result<
    ReadOpts,
    ReqErrorView,
>
    decreases opts.len(),
{
    if opts.len() == 0 {
        Ok(so_far)
    } else {
        match opts[0] {
            ReadOptView::Length(n) => read_spec(
                ReadOpts { length: n, ..so_far },
                opts.skip(1),
            ),
            ReadOptView::Period(p) => read_spec(ReadOpts { period: p, ..so_far }, opts.skip(1)),
            ReadOptView::Invalid => Err(ReqErrorView::BadArg),
            ReadOptView::Unknown(key) => Err(ReqErrorView::BadOpt(key)),
        }
    }
}

/// The read request that the options of a read add up to, or why the read
/// is refused (see [`read_spec`]).
pub fn read(opts: Vec<ReadOpt>) -> (r: Result<ReadOpts, ReqError>)
    ensures
        read_view(r) == read_spec(default_read(), read_opts_view(opts@)),
{
    let mut so_far = ReadOpts::new(None, None);
    let ghost given = opts@;
    let ghost all = read_opts_view(opts@);
    proof {
        assert(all.skip(0) =~= all);
    }
    for opt in it: opts
        invariant
            it.seq() == given,
            all == read_opts_view(given),
            read_spec(so_far, all.skip(it.index() as int)) == read_spec(default_read(), all),
    {
        proof {
            assert(all.skip(it.index() as int)[0] == opt@);
            assert(all.skip(it.index() as int).skip(1) =~= all.skip(it.index() + 1));
        }
        match opt {
            ReadOpt::Length(n) => {
                so_far = ReadOpts { length: n, period: so_far.period };
            },
            ReadOpt::Period(p) => {
                so_far = ReadOpts { length: so_far.length, period: p };
            },
            ReadOpt::Invalid => {
                return Err(ReqError::BadArg);
            },
            ReadOpt::Unknown(key) => {
                return Err(ReqError::BadOpt(key));
            },
        }
    }
    assert(all.skip(all.len() as int).len() == 0);
    Ok(so_far)
}

} // verus!
