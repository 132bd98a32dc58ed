//! The request lifecycle engine: one request from its build to the one
//! terminal reply.
//!
//! The engine decides; it does not wait. Whoever drives it waits for what
//! [`Req::wants`] names, hands the engine what happened as an [`Event`], and
//! carries out the [`Effect`]s that [`Req::run`] returns, in their order.

use crate::command::{IsFin, ReadOpts, SendCmd, SendCmdView};
use crate::error::{Error, ErrorCode, ErrorView};
use crate::message::{Message, MessageView, ResponseHead, ResponseHeadView};
use crate::request::{built_view, TransportRequest, TransportRequestView};
use vstd::prelude::*;

verus! {

/// What happened, as the driver reports it to the engine.
#[derive(Debug, PartialEq, Eq)]
pub enum Event {
    /// The task runs for the first time, with the outcome of the build phase.
    Start(Result<TransportRequest, Error>),
    /// The scheduler refused the task: it is destroyed within the operation
    /// that tried to create it.
    Rejected,
    /// The task is destroyed after the scheduler took it: cancelled by the
    /// caller, or ended with the runtime.
    Cancelled,
    /// The next upload command came out of its queue.
    Command(SendCmd),
    /// The queue of upload commands is closed and empty.
    CommandsClosed,
    /// The upload channel took the chunk that was being fed.
    FeedAccepted,
    /// The upload channel refused the chunk: the transport no longer reads
    /// the body.
    FeedFailed,
    /// The transport has the head of the response, or has failed.
    Response(Result<ResponseHead, Error>),
    /// The transport has the whole body of the response, or has failed.
    Body(Result<Vec<u8>, Error>),
    /// The next read request came out of its queue.
    Read(ReadOpts),
    /// The queue of read requests is closed and empty.
    ReadsClosed,
    /// The transport handed over the next part of the response body.
    Chunk(Vec<u8>),
    /// The response body has ended.
    EndOfBody,
    /// The transport failed while the body was read.
    ChunkFailed(Error),
    /// The period of the current read has passed.
    PeriodElapsed,
}

/// The mathematical value of an [`Event`].
pub enum EventView {
    Start(Result<TransportRequestView, ErrorView>),
    Rejected,
    Cancelled,
    Command(SendCmdView),
    CommandsClosed,
    FeedAccepted,
    FeedFailed,
    Response(Result<ResponseHeadView, ErrorView>),
    Body(Result<Seq<u8>, ErrorView>),
    Read(ReadOpts),
    ReadsClosed,
    Chunk(Seq<u8>),
    EndOfBody,
    ChunkFailed(ErrorView),
    PeriodElapsed,
}

/// The value of what the transport reports of the response head.
pub open spec fn response_view(r: Result<ResponseHead, Error>) -> Result<
    ResponseHeadView,
    ErrorView,
> {
    match r {
        Ok(head) => Ok(head@),
        Err(e) => Err(e@),
    }
}

/// The value of what the transport reports of the whole body.
pub open spec fn whole_body_view(r: Result<Vec<u8>, Error>) -> Result<Seq<u8>, ErrorView> {
    match r {
        Ok(bytes) => Ok(bytes@),
        Err(e) => Err(e@),
    }
}

impl View for Event {
    type V = EventView;

    open spec fn view(&self) -> EventView {
        match self {
            Event::Start(built) => EventView::Start(built_view(*built)),
            Event::Rejected => EventView::Rejected,
            Event::Cancelled => EventView::Cancelled,
            Event::Command(cmd) => EventView::Command(cmd@),
            Event::CommandsClosed => EventView::CommandsClosed,
            Event::FeedAccepted => EventView::FeedAccepted,
            Event::FeedFailed => EventView::FeedFailed,
            Event::Response(r) => EventView::Response(response_view(*r)),
            Event::Body(r) => EventView::Body(whole_body_view(*r)),
            Event::Read(opts) => EventView::Read(*opts),
            Event::ReadsClosed => EventView::ReadsClosed,
            Event::Chunk(bytes) => EventView::Chunk(bytes@),
            Event::EndOfBody => EventView::EndOfBody,
            Event::ChunkFailed(e) => EventView::ChunkFailed(e@),
            Event::PeriodElapsed => EventView::PeriodElapsed,
        }
    }
}

/// What the driver is to do, as the engine decides it.
#[derive(Debug, Clone, PartialEq, Eq)]
pub enum Effect {
    /// Hand the request to the transport and begin the exchange.
    Transport(TransportRequest),
    /// Feed the chunk into the upload channel.
    Feed(Vec<u8>),
    /// Close the upload channel: the body is complete, or given up.
    CloseUpload,
    /// Let go of the exchange with the transport.
    DropTransport,
    /// Let go of the queue of read requests, so that further reads fail.
    DropReads,
    /// Start the timer of the current read, in milliseconds.
    Timer(u64),
    /// Send the message to the caller.
    Emit(Message),
}

/// The mathematical value of an [`Effect`].
pub enum EffectView {
    Transport(TransportRequestView),
    Feed(Seq<u8>),
    CloseUpload,
    DropTransport,
    DropReads,
    Timer(u64),
    Emit(MessageView),
}

impl View for Effect {
    type V = EffectView;

    open spec fn view(&self) -> EffectView {
        match self {
            Effect::Transport(t) => EffectView::Transport(t@),
            Effect::Feed(bytes) => EffectView::Feed(bytes@),
            Effect::CloseUpload => EffectView::CloseUpload,
            Effect::DropTransport => EffectView::DropTransport,
            Effect::DropReads => EffectView::DropReads,
            Effect::Timer(ms) => EffectView::Timer(*ms),
            Effect::Emit(m) => EffectView::Emit(m@),
        }
    }
}

/// The value of a list of effects: the same effects in the same order.
pub open spec fn effects_view(effects: Seq<Effect>) -> Seq<EffectView> {
    effects.map_values(|e: Effect| e@)
}

/// How the reply slot was used up.
#[derive(Debug, Clone, Copy, PartialEq, Eq, Structural)]
pub enum Outcome {
    /// By the reply that carries the response, or the last chunk of it.
    Data,
    /// By the reply that reports a failure.
    Error,
    /// By nothing: the caller had closed the queue that the engine was
    /// waiting on, and could not have seen a reply.
    Abandoned,
    /// By nothing: the scheduler refused the task, and the operation that
    /// tried to create it reports the failure.
    Rejected,
}

/// What the engine is waiting for.
#[derive(Debug, Clone, Copy, PartialEq, Eq, Structural)]
pub enum Wait {
    /// For its first run.
    Start,
    /// For the next upload command or the response head, whichever is first.
    CommandOrResponse,
    /// For the upload channel to take the chunk or the response head,
    /// whichever is first.
    FeedOrResponse,
    /// For the response head.
    Response,
    /// For the next upload command; the response head is already there.
    Command,
    /// For the whole response body.
    Body,
    /// For the next read request.
    Read,
    /// For the next part of the response body.
    Chunk,
    /// For the next part of the response body or the end of the period,
    /// whichever is first.
    ChunkOrPeriod,
    /// For nothing: the request is over.
    Nothing,
}

impl Wait {
    /// Whether an engine that waits for `self` is waiting for `event`. Its
    /// destruction can befall it whenever it is not over.
    pub open spec fn admits(self, event: EventView) -> bool {
        match event {
            EventView::Start(_) => self == Wait::Start,
            EventView::Rejected => self == Wait::Start,
            EventView::Cancelled => self != Wait::Nothing,
            EventView::Command(_) | EventView::CommandsClosed => self == Wait::CommandOrResponse
                || self == Wait::Command,
            EventView::FeedAccepted | EventView::FeedFailed => self == Wait::FeedOrResponse,
            EventView::Response(_) => self == Wait::CommandOrResponse || self
                == Wait::FeedOrResponse || self == Wait::Response,
            EventView::Body(_) => self == Wait::Body,
            EventView::Read(_) | EventView::ReadsClosed => self == Wait::Read,
            EventView::Chunk(_) | EventView::EndOfBody | EventView::ChunkFailed(_) => self
                == Wait::Chunk || self == Wait::ChunkOrPeriod,
            EventView::PeriodElapsed => self == Wait::ChunkOrPeriod,
        }
    }
}

/// Where the engine stands, with what it holds there.
pub enum PhaseView {
    /// Created; the task has not run.
    Created,
    /// Streamed upload, idle: no chunk is being fed, the body is not
    /// finished, the response head is not there.
    AwaitCommand,
    /// Streamed upload: a chunk is being fed.
    Feeding,
    /// Nothing more is uploaded; the response head is awaited.
    AwaitResponse,
    /// Streamed upload, idle, and the response head (or the failure) came
    /// first: it is held until the next command.
    ResponseHeld(Result<ResponseHeadView, ErrorView>),
    /// The head is captured; the whole body is awaited.
    AwaitBody(ResponseHeadView),
    /// Streamed response, between two reads.
    AwaitRead,
    /// Streamed response, in a read.
    Reading(ReadOpts),
    /// Over: the reply slot is used up.
    Done(Outcome),
}

/// The mathematical value of an engine.
pub struct ReqView {
    pub phase: PhaseView,
    /// Whether the request body is uploaded in chunks.
    pub upload_streamed: bool,
    /// Whether the upload channel is there and the engine has not closed it.
    pub upload_open: bool,
    /// Whether the response body is read in chunks.
    pub response_streamed: bool,
    /// What the current read has accumulated.
    pub buf: Seq<u8>,
}

/// The failure that reports the destruction of the task.
pub open spec fn cancelled_error() -> ErrorView {
    ErrorView { code: ErrorCode::Cancelled, reason: "future dropped"@ }
}

/// The first run of a task whose URL is refused for the given reason.
pub open spec fn url_failure(reason: Seq<char>) -> EventView {
    EventView::Start(Err(ErrorView { code: ErrorCode::Url, reason }))
}

/// The failure that reports a malformed chunk of a streamed upload.
pub open spec fn malformed_chunk_error() -> ErrorView {
    ErrorView { code: ErrorCode::Request, reason: "invalid iodata"@ }
}

/// One pull at the response body, `buf` being what the read has so far: what
/// the read has afterwards, and how the read ends, if it does. A part of the
/// body is appended, and ends the read, short of the end, once `length` bytes
/// are there. The end of the body ends it, and so does a failure. The end of
/// the period ends it, short of the end, where a period is set. Nothing else
/// touches a read.
pub open spec fn pull_spec(opts: ReadOpts, buf: Seq<u8>, event: EventView) -> (
    Seq<u8>,
    Option<Result<IsFin, ErrorView>>,
) {
    match event {
        EventView::Chunk(bytes) => (
            buf + bytes,
            if (buf + bytes).len() >= opts.length {
                Some(Ok(IsFin::NoFin))
            } else {
                None
            },
        ),
        EventView::EndOfBody => (buf, Some(Ok(IsFin::Fin))),
        EventView::ChunkFailed(e) => (buf, Some(Err(e))),
        EventView::PeriodElapsed => (
            buf,
            if opts.period is Some {
                Some(Ok(IsFin::NoFin))
            } else {
                None
            },
        ),
        _ => (buf, None),
    }
}

impl ReqView {
    /// The engine of a new request.
    pub open spec fn init(upload_streamed: bool, response_streamed: bool) -> ReqView {
        ReqView {
            phase: PhaseView::Created,
            upload_streamed,
            upload_open: upload_streamed,
            response_streamed,
            buf: Seq::empty(),
        }
    }

    /// Whether the reply slot is still open.
    pub open spec fn slot_open(self) -> bool {
        !(self.phase is Done)
    }

    /// What the engine is waiting for.
    pub open spec fn wants(self) -> Wait {
        match self.phase {
            PhaseView::Created => Wait::Start,
            PhaseView::AwaitCommand => Wait::CommandOrResponse,
            PhaseView::Feeding => Wait::FeedOrResponse,
            PhaseView::AwaitResponse => Wait::Response,
            PhaseView::ResponseHeld(_) => Wait::Command,
            PhaseView::AwaitBody(_) => Wait::Body,
            PhaseView::AwaitRead => Wait::Read,
            PhaseView::Reading(opts) => if opts.period is Some {
                Wait::ChunkOrPeriod
            } else {
                Wait::Chunk
            },
            PhaseView::Done(_) => Wait::Nothing,
        }
    }

    /// The engine in another phase.
    pub open spec fn at(self, phase: PhaseView) -> ReqView {
        ReqView { phase, ..self }
    }

    /// The engine once the upload channel is closed, in another phase.
    pub open spec fn past_upload(self, phase: PhaseView) -> ReqView {
        ReqView { phase, upload_open: false, ..self }
    }

    /// The engine once it is over.
    pub open spec fn done(self, outcome: Outcome) -> ReqView {
        ReqView { phase: PhaseView::Done(outcome), upload_open: false, buf: Seq::empty(), ..self }
    }

    /// Closing the upload channel, where it is there and open.
    pub open spec fn close_upload(self) -> Seq<EffectView> {
        if self.upload_open {
            seq![EffectView::CloseUpload]
        } else {
            Seq::empty()
        }
    }

    /// Letting go of what the transport holds for the request: the exchange
    /// first, the upload channel after it.
    pub open spec fn unwind(self) -> Seq<EffectView> {
        seq![EffectView::DropTransport] + self.close_upload()
    }

    /// The end of the request by the terminal message `last`, after `before`.
    pub open spec fn reply_final(
        self,
        outcome: Outcome,
        before: Seq<EffectView>,
        last: MessageView,
    ) -> (ReqView, Seq<EffectView>) {
        (self.done(outcome), before + seq![EffectView::Emit(last)])
    }

    /// The end of the request by the report of a failure, after `before`.
    pub open spec fn reply_error(self, before: Seq<EffectView>, e: ErrorView) -> (
        ReqView,
        Seq<EffectView>,
    ) {
        self.reply_final(Outcome::Error, before, MessageView::Error(e))
    }

    /// The end of the request without a message, after `before`.
    pub open spec fn reply_none(self, before: Seq<EffectView>) -> (ReqView, Seq<EffectView>) {
        (self.done(Outcome::Abandoned), before)
    }

    /// The engine does not take the event.
    pub open spec fn ignore(self) -> (ReqView, Seq<EffectView>) {
        (self, Seq::empty())
    }

    /// The first run: a failed build ends the request, before any network
    /// activity; a built request goes to the transport.
    pub open spec fn start(self, event: EventView) -> (ReqView, Seq<EffectView>) {
        match event {
            EventView::Start(Err(e)) => self.reply_error(Seq::empty(), e),
            EventView::Start(Ok(request)) => (
                self.at(
                    if self.upload_streamed {
                        PhaseView::AwaitCommand
                    } else {
                        PhaseView::AwaitResponse
                    },
                ),
                seq![EffectView::Transport(request)],
            ),
            _ => self.ignore(),
        }
    }

    /// The transport's verdict on the exchange is taken up. A failure ends
    /// the request, after the unwinding. A response head closes the upload
    /// channel, if that is still open; then a streamed response is announced
    /// to the caller and its first read awaited, while for a complete one the
    /// body is awaited.
    pub open spec fn deliver(self, verdict: Result<ResponseHeadView, ErrorView>) -> (
        ReqView,
        Seq<EffectView>,
    ) {
        match verdict {
            Err(e) => self.reply_error(self.unwind(), e),
            Ok(head) => if self.response_streamed {
                (
                    self.past_upload(PhaseView::AwaitRead),
                    self.close_upload() + seq![
                        EffectView::Emit(MessageView::Reply(head.partial())),
                    ],
                )
            } else {
                (self.past_upload(PhaseView::AwaitBody(head)), self.close_upload())
            },
        }
    }

    /// The race of a streamed upload against the response.
    pub open spec fn stream_req(self, event: EventView) -> (ReqView, Seq<EffectView>) {
        match self.phase {
            PhaseView::AwaitCommand => match event {
                EventView::Command(SendCmdView::Send(bytes)) => (
                    self.at(PhaseView::Feeding),
                    seq![EffectView::Feed(bytes)],
                ),
                EventView::Command(SendCmdView::Malformed) => self.reply_error(
                    self.unwind(),
                    malformed_chunk_error(),
                ),
                EventView::Command(SendCmdView::FinishSend) => (
                    self.past_upload(PhaseView::AwaitResponse),
                    self.close_upload(),
                ),
                EventView::CommandsClosed => self.reply_none(self.unwind()),
                EventView::Response(verdict) => self.at(PhaseView::ResponseHeld(verdict)).ignore(),
                _ => self.ignore(),
            },
            PhaseView::Feeding => match event {
                EventView::FeedAccepted => (
                    self.at(PhaseView::AwaitCommand),
                    seq![EffectView::Emit(MessageView::Next)],
                ),
                EventView::FeedFailed => self.at(PhaseView::AwaitResponse).ignore(),
                EventView::Response(verdict) => self.deliver(verdict),
                _ => self.ignore(),
            },
            PhaseView::ResponseHeld(verdict) => match event {
                EventView::Command(_) => self.deliver(verdict),
                EventView::CommandsClosed => self.reply_none(self.unwind()),
                _ => self.ignore(),
            },
            _ => self.ignore(),
        }
    }

    /// The pull protocol of a streamed response.
    pub open spec fn stream_resp(self, event: EventView) -> (ReqView, Seq<EffectView>) {
        match self.phase {
            PhaseView::AwaitRead => match event {
                EventView::Read(opts) => (
                    ReqView { phase: PhaseView::Reading(opts), buf: Seq::empty(), ..self },
                    match opts.period {
                        Some(ms) => seq![EffectView::Timer(ms)],
                        None => Seq::empty(),
                    },
                ),
                EventView::ReadsClosed => self.reply_none(Seq::empty()),
                _ => self.ignore(),
            },
            PhaseView::Reading(opts) => {
                let (buf, ended) = pull_spec(opts, self.buf, event);
                match ended {
                    None => ReqView { buf, ..self }.ignore(),
                    Some(Ok(IsFin::NoFin)) => (
                        ReqView { phase: PhaseView::AwaitRead, buf: Seq::empty(), ..self },
                        seq![EffectView::Emit(MessageView::Chunk(buf))],
                    ),
                    Some(Ok(IsFin::Fin)) => self.reply_final(
                        Outcome::Data,
                        seq![EffectView::DropReads],
                        MessageView::Fin(buf),
                    ),
                    Some(Err(e)) => self.reply_error(seq![EffectView::DropReads], e),
                }
            },
            _ => self.ignore(),
        }
    }

    /// One step of the engine: what it is after `event`, and what the driver
    /// is to do. Destruction ends a request that is not over with the report
    /// of a cancellation, unless the scheduler never took the task. An event
    /// that the engine is not waiting for changes nothing.
    pub open spec fn step(self, event: EventView) -> (ReqView, Seq<EffectView>) {
        match event {
            EventView::Cancelled => if self.slot_open() {
                self.reply_error(Seq::empty(), cancelled_error())
            } else {
                self.ignore()
            },
            EventView::Rejected => if self.phase is Created {
                (self.done(Outcome::Rejected), Seq::empty())
            } else {
                self.ignore()
            },
            _ => match self.phase {
                PhaseView::Created => self.start(event),
                PhaseView::AwaitCommand | PhaseView::Feeding | PhaseView::ResponseHeld(
                    _,
                ) => self.stream_req(event),
                PhaseView::AwaitResponse => match event {
                    EventView::Response(verdict) => self.deliver(verdict),
                    _ => self.ignore(),
                },
                PhaseView::AwaitBody(head) => match event {
                    EventView::Body(Ok(bytes)) => self.reply_final(
                        Outcome::Data,
                        Seq::empty(),
                        MessageView::Reply(head.complete(bytes)),
                    ),
                    EventView::Body(Err(e)) => self.reply_error(Seq::empty(), e),
                    _ => self.ignore(),
                },
                PhaseView::AwaitRead | PhaseView::Reading(_) => self.stream_resp(event),
                PhaseView::Done(_) => self.ignore(),
            },
        }
    }

    /// The engine after a history of events, and all that the driver was to
    /// do in its course, in order.
    pub open spec fn run(self, events: Seq<EventView>) -> (ReqView, Seq<EffectView>)
        decreases events.len(),
    {
        if events.len() == 0 {
            (self, Seq::empty())
        } else {
            let (mid, before) = self.run(events.drop_last());
            let (end, last) = mid.step(events.last());
            (end, before + last)
        }
    }

    /// Whether a history is one that a driver can produce which reports only
    /// what the engine is waiting for: each event is admitted by what the
    /// engine wants when the event comes.
    pub open spec fn well_driven(self, events: Seq<EventView>) -> bool
        decreases events.len(),
    {
        events.len() == 0 || (self.well_driven(events.drop_last()) && self.run(
            events.drop_last(),
        ).0.wants().admits(events.last()))
    }
}

} // verus!
