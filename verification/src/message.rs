//! What the engine tells the caller: progress, response, chunks, failure.

use crate::error::{Error, ErrorView};
use crate::views::{body_view, headers_view, HeaderSeq};
use vstd::prelude::*;

verus! {

/// Status and headers of a response, as the transport hands them over once
/// the exchange has got that far.
#[derive(Debug, Clone, PartialEq, Eq)]
pub struct ResponseHead {
    pub status: u16,
    pub headers: Vec<(Vec<u8>, Vec<u8>)>,
}

/// The mathematical value of a [`ResponseHead`].
pub struct ResponseHeadView {
    pub status: u16,
    pub headers: HeaderSeq,
}

impl View for ResponseHead {
    type V = ResponseHeadView;

    open spec fn view(&self) -> ResponseHeadView {
        ResponseHeadView { status: self.status, headers: headers_view(self.headers@) }
    }
}

/// A response as the caller gets it. The body is `None` while it is not yet
/// known: that is the form in which a streamed response is announced.
#[derive(Debug, Clone, PartialEq, Eq)]
pub struct Resp {
    pub status: u16,
    pub headers: Vec<(Vec<u8>, Vec<u8>)>,
    pub body: Option<Vec<u8>>,
}

/// The mathematical value of a [`Resp`].
pub struct RespView {
    pub status: u16,
    pub headers: HeaderSeq,
    pub body: Option<Seq<u8>>,
}

impl View for Resp {
    type V = RespView;

    open spec fn view(&self) -> RespView {
        RespView {
            status: self.status,
            headers: headers_view(self.headers@),
            body: body_view(self.body),
        }
    }
}

impl ResponseHeadView {
    /// The announcement of a streamed response: the head, body not yet known.
    pub open spec fn partial(self) -> RespView {
        RespView { status: self.status, headers: self.headers, body: None }
    }

    /// The complete response: the head with its body.
    pub open spec fn complete(self, body: Seq<u8>) -> RespView {
        RespView { status: self.status, headers: self.headers, body: Some(body) }
    }
}

impl ResponseHead {
    /// The announcement of a streamed response. The headers move; they are
    /// not copied.
    pub fn partial(self) -> (r: Resp)
        ensures
            r@ == self@.partial(),
    {
        Resp { status: self.status, headers: self.headers, body: None }
    }

    /// The complete response. The headers and the body move; they are not
    /// copied.
    pub fn complete(self, body: Vec<u8>) -> (r: Resp)
        ensures
            r@ == self@.complete(body@),
    {
        Resp { status: self.status, headers: self.headers, body: Some(body) }
    }
}

/// A message to the caller. The driver sends each one tagged with the
/// request's correlation token.
#[derive(Debug, Clone, PartialEq, Eq)]
pub enum Message {
    /// A streamed upload is ready for the next chunk.
    Next,
    /// The response: complete, or (body `None`) the announcement of a
    /// streamed one.
    Reply(Resp),
    /// A part of a streamed response body, not the last.
    Chunk(Vec<u8>),
    /// The last part of a streamed response body, possibly empty.
    Fin(Vec<u8>),
    /// The request failed.
    Error(Error),
}

/// The mathematical value of a [`Message`].
pub enum MessageView {
    Next,
    Reply(RespView),
    Chunk(Seq<u8>),
    Fin(Seq<u8>),
    Error(ErrorView),
}

impl View for Message {
    type V = MessageView;

    open spec fn view(&self) -> MessageView {
        match self {
            Message::Next => MessageView::Next,
            Message::Reply(r) => MessageView::Reply(r@),
            Message::Chunk(b) => MessageView::Chunk(b@),
            Message::Fin(b) => MessageView::Fin(b@),
            Message::Error(e) => MessageView::Error(e@),
        }
    }
}

impl MessageView {
    /// Whether the message closes the reply slot: a response with its body, a
    /// last chunk, or a failure. The announcement of a streamed response
    /// does not.
    pub open spec fn is_terminal(self) -> bool {
        match self {
            MessageView::Next => false,
            MessageView::Reply(r) => r.body is Some,
            MessageView::Chunk(_) => false,
            MessageView::Fin(_) => true,
            MessageView::Error(_) => true,
        }
    }

    /// The bytes of the response body that the message carries in a streamed
    /// read: those of a chunk or of the last chunk, none otherwise.
    pub open spec fn payload(self) -> Seq<u8> {
        match self {
            MessageView::Chunk(b) => b,
            MessageView::Fin(b) => b,
            _ => Seq::empty(),
        }
    }
}

impl Message {
    /// Whether the message closes the reply slot.
    pub fn is_terminal(&self) -> (b: bool)
        ensures
            b == self@.is_terminal(),
    {
        match self {
            Message::Next => false,
            Message::Reply(r) => r.body.is_some(),
            Message::Chunk(_) => false,
            Message::Fin(_) => true,
            Message::Error(_) => true,
        }
    }
}

} // verus!
