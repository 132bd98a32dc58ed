//! What the caller pushes to the engine through its handle: the commands of a
//! streamed upload and the read requests of a streamed response.

use vstd::prelude::*;

verus! {

/// The length of a read for which the caller names none: 8 MiB, in effect no
/// bound on one pull but memory.
pub const DEFAULT_READ_LENGTH: usize = 8388608;

/// A command of a streamed upload.
#[derive(Debug, Clone, PartialEq, Eq)]
pub enum SendCmd {
    /// The next chunk of the body.
    Send(Vec<u8>),
    /// The caller supplied, for a chunk, something that is not a sequence of
    /// bytes.
    Malformed,
    /// The body is complete.
    FinishSend,
}

/// The mathematical value of a [`SendCmd`].
pub enum SendCmdView {
    Send(Seq<u8>),
    Malformed,
    FinishSend,
}

impl View for SendCmd {
    type V = SendCmdView;

    open spec fn view(&self) -> SendCmdView {
        match self {
            SendCmd::Send(b) => SendCmdView::Send(b@),
            SendCmd::Malformed => SendCmdView::Malformed,
            SendCmd::FinishSend => SendCmdView::FinishSend,
        }
    }
}

/// One pull of a streamed response body: flush once `length` bytes are there,
/// or, where `period` (in milliseconds) is set, once it has passed.
#[derive(Debug, Clone, Copy, PartialEq, Eq)]
pub struct ReadOpts {
    pub length: usize,
    pub period: Option<u64>,
}

impl ReadOpts {
    /// The read request for what the caller named: a missing length is
    /// [`DEFAULT_READ_LENGTH`].
    pub fn new(length: Option<usize>, period: Option<u64>) -> (opts: ReadOpts)
        ensures
            opts.length == (match length {
                Some(n) => n,
                None => DEFAULT_READ_LENGTH,
            }),
            opts.period == period,
    {
        let length = match length {
            Some(n) => n,
            None => DEFAULT_READ_LENGTH,
        };
        ReadOpts { length, period }
    }
}

/// How one pull ended: with the end of the body, or before it.
#[derive(Debug, Clone, Copy, PartialEq, Eq, Structural)]
pub enum IsFin {
    Fin,
    NoFin,
}

} // verus!
