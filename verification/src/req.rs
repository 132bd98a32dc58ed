//! The engine as it runs: [`Req`] holds where a request stands, takes one
//! event at a time and answers with what the driver is to do.

use crate::command::{IsFin, ReadOpts, SendCmd};
use crate::engine::{
    effects_view, pull_spec, url_failure, Effect, EffectView, Event, EventView, Outcome,
    PhaseView, ReqView, Wait,
};
use crate::error::{Error, ErrorCode, ErrorView};
use crate::message::{Message, ResponseHead};
use crate::request::{decode_spec, ReqData};
use vstd::prelude::*;
use vstd::utf8::{decode_utf8, valid_utf8};

verus! {

enum Phase {
    Created,
    AwaitCommand,
    Feeding,
    AwaitResponse,
    ResponseHeld(Result<ResponseHead, Error>),
    AwaitBody(ResponseHead),
    AwaitRead,
    Reading(ReadOpts),
    Done(Outcome),
}

impl View for Phase {
    type V = PhaseView;

    closed spec fn view(&self) -> PhaseView {
        match self {
            Phase::Created => PhaseView::Created,
            Phase::AwaitCommand => PhaseView::AwaitCommand,
            Phase::Feeding => PhaseView::Feeding,
            Phase::AwaitResponse => PhaseView::AwaitResponse,
            Phase::ResponseHeld(Ok(head)) => PhaseView::ResponseHeld(Ok(head@)),
            Phase::ResponseHeld(Err(e)) => PhaseView::ResponseHeld(Err(e@)),
            Phase::AwaitBody(head) => PhaseView::AwaitBody(head@),
            Phase::AwaitRead => PhaseView::AwaitRead,
            Phase::Reading(opts) => PhaseView::Reading(*opts),
            Phase::Done(outcome) => PhaseView::Done(*outcome),
        }
    }
}

/// The engine of one request. It owns the reply slot: open from the start,
/// used up exactly once, by the terminal reply or by the decision to send
/// none, and never open again.
pub struct Req {
    phase: Phase,
    upload_streamed: bool,
    upload_open: bool,
    response_streamed: bool,
    buf: Vec<u8>,
}

impl View for Req {
    type V = ReqView;

    closed spec fn view(&self) -> ReqView {
        ReqView {
            phase: self.phase@,
            upload_streamed: self.upload_streamed,
            upload_open: self.upload_open,
            response_streamed: self.response_streamed,
            buf: self.buf@,
        }
    }
}

/// The list of the one effect `e`.
fn one(e: Effect) -> (effects: Vec<Effect>)
    ensures
        effects_view(effects@) == seq![e@],
{
    let mut effects: Vec<Effect> = Vec::new();
    effects.push(e);
    assert(effects_view(effects@) =~= seq![e@]);
    effects
}

/// The empty list of effects.
fn none() -> (effects: Vec<Effect>)
    ensures
        effects_view(effects@) == Seq::<EffectView>::empty(),
{
    let effects: Vec<Effect> = Vec::new();
    assert(effects_view(effects@) =~= Seq::<EffectView>::empty());
    effects
}

/// The list `before`, then `e`.
fn then(before: Vec<Effect>, e: Effect) -> (effects: Vec<Effect>)
    ensures
        effects_view(effects@) == effects_view(before@) + seq![e@],
{
    let mut effects = before;
    effects.push(e);
    assert(effects_view(effects@) =~= effects_view(before@) + seq![e@]);
    effects
}

/// One pull at the response body: appends a part of the body to `buf` and
/// says how the read ends, if it does (see [`pull_spec`]).
pub fn stream_response_chunk(opts: ReadOpts, buf: &mut Vec<u8>, event: Event) -> (ended: Option<
    Result<IsFin, Error>,
>)
    ensures
        final(buf)@ == pull_spec(opts, old(buf)@, event@).0,
        match ended {
            None => pull_spec(opts, old(buf)@, event@).1 is None,
            Some(Ok(fin)) => pull_spec(opts, old(buf)@, event@).1 == Some(
                Ok::<IsFin, ErrorView>(fin),
            ),
            Some(Err(e)) => pull_spec(opts, old(buf)@, event@).1 == Some(
                Err::<IsFin, ErrorView>(e@),
            ),
        },
{
    match event {
        Event::Chunk(bytes) => {
            let mut bytes = bytes;
            buf.append(&mut bytes);
            if buf.len() >= opts.length {
                Some(Ok(IsFin::NoFin))
            } else {
                None
            }
        },
        Event::EndOfBody => Some(Ok(IsFin::Fin)),
        Event::ChunkFailed(e) => Some(Err(e)),
        Event::PeriodElapsed => {
            if opts.period.is_some() {
                Some(Ok(IsFin::NoFin))
            } else {
                None
            }
        },
        _ => None,
    }
}

impl Req {
    /// The engine of a new request, with its reply slot open.
    pub fn new(upload_streamed: bool, response_streamed: bool) -> (req: Req)
        ensures
            req@ == ReqView::init(upload_streamed, response_streamed),
    {
        Req {
            phase: Phase::Created,
            upload_streamed,
            upload_open: upload_streamed,
            response_streamed,
            buf: Vec::new(),
        }
    }

    /// What the engine is waiting for.
    pub fn wants(&self) -> (w: Wait)
        ensures
            w == self@.wants(),
    {
        match &self.phase {
            Phase::Created => Wait::Start,
            Phase::AwaitCommand => Wait::CommandOrResponse,
            Phase::Feeding => Wait::FeedOrResponse,
            Phase::AwaitResponse => Wait::Response,
            Phase::ResponseHeld(_) => Wait::Command,
            Phase::AwaitBody(_) => Wait::Body,
            Phase::AwaitRead => Wait::Read,
            Phase::Reading(opts) => if opts.period.is_some() {
                Wait::ChunkOrPeriod
            } else {
                Wait::Chunk
            },
            Phase::Done(_) => Wait::Nothing,
        }
    }

    /// How the reply slot was used up; `None` while it is open.
    pub fn outcome(&self) -> (o: Option<Outcome>)
        ensures
            o == (match self@.phase {
                PhaseView::Done(outcome) => Some(outcome),
                _ => None,
            }),
    {
        match &self.phase {
            Phase::Done(outcome) => Some(*outcome),
            _ => None,
        }
    }

    /// Whether the scheduler refused the task, so that the operation that
    /// tried to create it has to report the failure.
    pub fn spawn_failed(&self) -> (b: bool)
        ensures
            b == (self@.phase == PhaseView::Done(Outcome::Rejected)),
    {
        match &self.phase {
            Phase::Done(Outcome::Rejected) => true,
            _ => false,
        }
    }

    fn done(self, outcome: Outcome) -> (req: Req)
        ensures
            req@ == self@.done(outcome),
    {
        Req {
            phase: Phase::Done(outcome),
            upload_streamed: self.upload_streamed,
            upload_open: false,
            response_streamed: self.response_streamed,
            buf: Vec::new(),
        }
    }

    fn unwind(&self) -> (effects: Vec<Effect>)
        ensures
            effects_view(effects@) == self@.unwind(),
    {
        let effects = one(Effect::DropTransport);
        if self.upload_open {
            then(effects, Effect::CloseUpload)
        } else {
            assert(seq![EffectView::DropTransport] + Seq::<EffectView>::empty() =~= seq![
                EffectView::DropTransport,
            ]);
            effects
        }
    }

    fn close_upload(&self) -> (effects: Vec<Effect>)
        ensures
            effects_view(effects@) == self@.close_upload(),
    {
        if self.upload_open {
            one(Effect::CloseUpload)
        } else {
            none()
        }
    }

    /// Uses up the reply slot by the terminal message `last`, which the
    /// driver sends after it has carried out `before`.
    fn reply_final(self, outcome: Outcome, before: Vec<Effect>, last: Message) -> (r: (
        Req,
        Vec<Effect>,
    ))
        requires
            self@.slot_open(),
        ensures
            r.0@ == self@.reply_final(outcome, effects_view(before@), last@).0,
            effects_view(r.1@) == self@.reply_final(outcome, effects_view(before@), last@).1,
    {
        (self.done(outcome), then(before, Effect::Emit(last)))
    }

    /// Uses up the reply slot by the report of a failure.
    fn reply_error(self, before: Vec<Effect>, e: Error) -> (r: (Req, Vec<Effect>))
        requires
            self@.slot_open(),
        ensures
            r.0@ == self@.reply_error(effects_view(before@), e@).0,
            effects_view(r.1@) == self@.reply_error(effects_view(before@), e@).1,
    {
        self.reply_final(Outcome::Error, before, Message::Error(e))
    }

    /// Uses up the reply slot without a message: the caller is not waiting
    /// for one.
    fn reply_none(self, before: Vec<Effect>) -> (r: (Req, Vec<Effect>))
        requires
            self@.slot_open(),
        ensures
            r.0@ == self@.reply_none(effects_view(before@)).0,
            effects_view(r.1@) == self@.reply_none(effects_view(before@)).1,
    {
        (self.done(Outcome::Abandoned), before)
    }

    /// The first run of the task, with the outcome of the build phase.
    fn first_run(self, event: Event) -> (r: (Req, Vec<Effect>))
        requires
            self@.phase is Created,
        ensures
            r.0@ == self@.start(event@).0,
            effects_view(r.1@) == self@.start(event@).1,
    {
        match event {
            Event::Start(Err(e)) => self.reply_error(none(), e),
            Event::Start(Ok(request)) => {
                let phase = if self.upload_streamed {
                    Phase::AwaitCommand
                } else {
                    Phase::AwaitResponse
                };
                (Req { phase, ..self }, one(Effect::Transport(request)))
            },
            _ => (self, none()),
        }
    }

    fn deliver(self, verdict: Result<ResponseHead, Error>) -> (r: (Req, Vec<Effect>))
        requires
            self@.slot_open(),
        ensures
            r.0@ == self@.deliver(crate::engine::response_view(verdict)).0,
            effects_view(r.1@) == self@.deliver(crate::engine::response_view(verdict)).1,
    {
        match verdict {
            Err(e) => {
                let before = self.unwind();
                self.reply_error(before, e)
            },
            Ok(head) => {
                let closing = self.close_upload();
                if self.response_streamed {
                    let effects = then(closing, Effect::Emit(Message::Reply(head.partial())));
                    (Req { phase: Phase::AwaitRead, upload_open: false, ..self }, effects)
                } else {
                    (Req { phase: Phase::AwaitBody(head), upload_open: false, ..self }, closing)
                }
            },
        }
    }

    /// The race of a streamed upload against the response.
    fn stream_req(self, event: Event) -> (r: (Req, Vec<Effect>))
        requires
            self@.phase is AwaitCommand || self@.phase is Feeding || self@.phase is ResponseHeld,
        ensures
            r.0@ == self@.stream_req(event@).0,
            effects_view(r.1@) == self@.stream_req(event@).1,
    {
        let Req { phase, upload_streamed, upload_open, response_streamed, buf } = self;
        match phase {
            Phase::AwaitCommand => {
                let req = Req {
                    phase: Phase::AwaitCommand,
                    upload_streamed,
                    upload_open,
                    response_streamed,
                    buf,
                };
                match event {
                    Event::Command(SendCmd::Send(bytes)) => (
                        Req { phase: Phase::Feeding, ..req },
                        one(Effect::Feed(bytes)),
                    ),
                    Event::Command(SendCmd::Malformed) => {
                        let before = req.unwind();
                        req.reply_error(
                            before,
                            Error::from_reason(ErrorCode::Request, "invalid iodata"),
                        )
                    },
                    Event::Command(SendCmd::FinishSend) => {
                        let closing = req.close_upload();
                        (Req { phase: Phase::AwaitResponse, upload_open: false, ..req }, closing)
                    },
                    Event::CommandsClosed => {
                        let before = req.unwind();
                        req.reply_none(before)
                    },
                    Event::Response(verdict) => (
                        Req { phase: Phase::ResponseHeld(verdict), ..req },
                        none(),
                    ),
                    _ => (req, none()),
                }
            },
            Phase::Feeding => {
                let req = Req {
                    phase: Phase::Feeding,
                    upload_streamed,
                    upload_open,
                    response_streamed,
                    buf,
                };
                match event {
                    Event::FeedAccepted => (
                        Req { phase: Phase::AwaitCommand, ..req },
                        one(Effect::Emit(Message::Next)),
                    ),
                    Event::FeedFailed => (Req { phase: Phase::AwaitResponse, ..req }, none()),
                    Event::Response(verdict) => req.deliver(verdict),
                    _ => (req, none()),
                }
            },
            Phase::ResponseHeld(verdict) => {
                let ghost held = crate::engine::response_view(verdict);
                match event {
                    Event::Command(_) => {
                        let req = Req {
                            phase: Phase::AwaitCommand,
                            upload_streamed,
                            upload_open,
                            response_streamed,
                            buf,
                        };
                        assert(req@.deliver(held) == self@.deliver(held));
                        req.deliver(verdict)
                    },
                    Event::CommandsClosed => {
                        let req = Req {
                            phase: Phase::AwaitCommand,
                            upload_streamed,
                            upload_open,
                            response_streamed,
                            buf,
                        };
                        let before = req.unwind();
                        req.reply_none(before)
                    },
                    _ => (
                        Req {
                            phase: Phase::ResponseHeld(verdict),
                            upload_streamed,
                            upload_open,
                            response_streamed,
                            buf,
                        },
                        none(),
                    ),
                }
            },
            phase => (Req { phase, upload_streamed, upload_open, response_streamed, buf }, none()),
        }
    }

    /// The pull protocol of a streamed response.
    fn stream_resp(self, event: Event) -> (r: (Req, Vec<Effect>))
        requires
            self@.phase is AwaitRead || self@.phase is Reading,
        ensures
            r.0@ == self@.stream_resp(event@).0,
            effects_view(r.1@) == self@.stream_resp(event@).1,
    {
        match self.phase {
            Phase::AwaitRead => match event {
                Event::Read(opts) => {
                    let effects = match opts.period {
                        Some(ms) => one(Effect::Timer(ms)),
                        None => none(),
                    };
                    (Req { phase: Phase::Reading(opts), buf: Vec::new(), ..self }, effects)
                },
                Event::ReadsClosed => self.reply_none(none()),
                _ => (self, none()),
            },
            Phase::Reading(opts) => {
                let mut req = self;
                match stream_response_chunk(opts, &mut req.buf, event) {
                    None => (req, none()),
                    Some(Ok(IsFin::NoFin)) => {
                        let mut flushed: Vec<u8> = Vec::new();
                        core::mem::swap(&mut req.buf, &mut flushed);
                        (
                            Req { phase: Phase::AwaitRead, ..req },
                            one(Effect::Emit(Message::Chunk(flushed))),
                        )
                    },
                    Some(Ok(IsFin::Fin)) => {
                        let mut flushed: Vec<u8> = Vec::new();
                        core::mem::swap(&mut req.buf, &mut flushed);
                        let before = one(Effect::DropReads);
                        assert(req@.done(Outcome::Data) == self@.done(Outcome::Data));
                        req.reply_final(Outcome::Data, before, Message::Fin(flushed))
                    },
                    Some(Err(e)) => {
                        let before = one(Effect::DropReads);
                        assert(req@.done(Outcome::Error) == self@.done(Outcome::Error));
                        req.reply_error(before, e)
                    },
                }
            },
            _ => (self, none()),
        }
    }

    /// One step of the engine, on an engine that is handed over and back.
    fn advance(self, event: Event) -> (r: (Req, Vec<Effect>))
        ensures
            r.0@ == self@.step(event@).0,
            effects_view(r.1@) == self@.step(event@).1,
    {
        match event {
            Event::Cancelled => {
                if self.outcome().is_none() {
                    self.reply_error(
                        none(),
                        Error::from_reason(ErrorCode::Cancelled, "future dropped"),
                    )
                } else {
                    (self, none())
                }
            },
            Event::Rejected => {
                match self.phase {
                    Phase::Created => (self.done(Outcome::Rejected), none()),
                    _ => (self, none()),
                }
            },
            event => {
                let Req { phase, upload_streamed, upload_open, response_streamed, buf } = self;
                match phase {
                    Phase::Created => Req {
                        phase: Phase::Created,
                        upload_streamed,
                        upload_open,
                        response_streamed,
                        buf,
                    }.first_run(event),
                    Phase::AwaitResponse => {
                        let req = Req {
                            phase: Phase::AwaitResponse,
                            upload_streamed,
                            upload_open,
                            response_streamed,
                            buf,
                        };
                        match event {
                            Event::Response(verdict) => req.deliver(verdict),
                            _ => (req, none()),
                        }
                    },
                    Phase::AwaitBody(head) => {
                        match event {
                            Event::Body(Ok(bytes)) => Req {
                                phase: Phase::AwaitRead,
                                upload_streamed,
                                upload_open,
                                response_streamed,
                                buf,
                            }.reply_final(
                                Outcome::Data,
                                none(),
                                Message::Reply(head.complete(bytes)),
                            ),
                            Event::Body(Err(e)) => Req {
                                phase: Phase::AwaitRead,
                                upload_streamed,
                                upload_open,
                                response_streamed,
                                buf,
                            }.reply_error(none(), e),
                            _ => (
                                Req {
                                    phase: Phase::AwaitBody(head),
                                    upload_streamed,
                                    upload_open,
                                    response_streamed,
                                    buf,
                                },
                                none(),
                            ),
                        }
                    },
                    Phase::Done(outcome) => (
                        Req {
                            phase: Phase::Done(outcome),
                            upload_streamed,
                            upload_open,
                            response_streamed,
                            buf,
                        },
                        none(),
                    ),
                    Phase::AwaitRead => Req {
                        phase: Phase::AwaitRead,
                        upload_streamed,
                        upload_open,
                        response_streamed,
                        buf,
                    }.stream_resp(event),
                    Phase::Reading(opts) => Req {
                        phase: Phase::Reading(opts),
                        upload_streamed,
                        upload_open,
                        response_streamed,
                        buf,
                    }.stream_resp(event),
                    phase => Req {
                        phase,
                        upload_streamed,
                        upload_open,
                        response_streamed,
                        buf,
                    }.stream_req(event),
                }
            },
        }
    }

    /// One step of the engine: takes what happened, moves on, and returns
    /// what the driver is to do, in the order in which it is to do it (see
    /// [`ReqView::step`]).
    pub fn run(&mut self, event: Event) -> (effects: Vec<Effect>)
        ensures
            final(self)@ == old(self)@.step(event@).0,
            effects_view(effects@) == old(self)@.step(event@).1,
    {
        let mut req = Req::new(false, false);
        core::mem::swap(self, &mut req);
        let (mut next, effects) = req.advance(event);
        core::mem::swap(self, &mut next);
        effects
    }

    /// The first run of the task: builds the request from what the caller
    /// described and takes the step of [`Event::Start`] with the outcome.
    /// For a URL that is valid UTF-8 that outcome is the one of
    /// [`decode_spec`]; for one that is not, it is a `Url` failure.
    pub fn start(&mut self, data: ReqData) -> (effects: Vec<Effect>)
        ensures
            valid_utf8(data.url@) ==> ({
                let event = EventView::Start(decode_spec(decode_utf8(data.url@), data@));
                &&& final(self)@ == old(self)@.step(event).0
                &&& effects_view(effects@) == old(self)@.step(event).1
            }),
            !valid_utf8(data.url@) ==> exists|reason: Seq<char>|
                {
                    &&& final(self)@ == old(self)@.step(#[trigger] url_failure(reason)).0
                    &&& effects_view(effects@) == old(self)@.step(url_failure(reason)).1
                },
    {
        let built = data.decode();
        let ghost event = Event::Start(built)@;
        proof {
            if !valid_utf8(data.url@) {
                assert(event == url_failure(built->Err_0.reason@));
            }
        }
        self.run(Event::Start(built))
    }
}

} // verus!
