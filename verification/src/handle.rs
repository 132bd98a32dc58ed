//! The caller's side of a request in flight: the handle through which it
//! cancels, uploads and reads. The handle and the engine share nothing but
//! two queues and the abort control.

use crate::command::{ReadOpts, SendCmd};
use crate::config::ReqError;
use futures::channel::mpsc::UnboundedSender;
use futures::future::AbortHandle;
use vstd::prelude::*;

verus! {

#[verifier::external_type_specification]
#[verifier::external_body]
#[verifier::reject_recursive_types(T)]
pub struct ExUnboundedSender<T>(UnboundedSender<T>);

#[verifier::external_type_specification]
#[verifier::external_body]
pub struct ExAbortHandle(AbortHandle);

/// `UnboundedSender::unbounded_send`, with its result reduced to whether the
/// queue took the message. It does not when the queue is closed or its
/// receiver is gone, which the other side decides: nothing is claimed of the
/// answer. (The queue gives up only when it holds more messages than memory
/// can.)
#[verifier::external_body]
fn enqueue<T>(tx: &UnboundedSender<T>, msg: T) -> (taken: bool) {
    tx.unbounded_send(msg).is_ok()
}

/// `UnboundedSender::close_channel`: closes the queue from the sender's
/// side. It returns nothing.
pub assume_specification<T>[ UnboundedSender::<T>::close_channel ](tx: &UnboundedSender<T>)
;

/// `AbortHandle::abort`: tells the task to stop at its next suspension. It
/// returns nothing.
pub assume_specification[ AbortHandle::abort ](handle: &AbortHandle)
;

/// What the caller is told of an operation on a queue that took, or did not
/// take, what the operation put in: a queue that did not is no longer there
/// for the caller.
pub fn usable(taken: bool) -> (r: Result<(), ReqError>)
    ensures
        r == (if taken {
            Ok::<(), ReqError>(())
        } else {
            Err::<(), ReqError>(ReqError::BadArg)
        }),
{
    if taken {
        Ok(())
    } else {
        Err(ReqError::BadArg)
    }
}

/// The upload command for what the caller sends: `None` is data that is not
/// a sequence of bytes.
pub fn send_cmd(data: Option<Vec<u8>>) -> (cmd: SendCmd)
    ensures
        cmd@ == (match data {
            Some(bytes) => crate::command::SendCmdView::Send(bytes@),
            None => crate::command::SendCmdView::Malformed,
        }),
{
    match data {
        Some(bytes) => SendCmd::Send(bytes),
        None => SendCmd::Malformed,
    }
}

/// The handle of a request in flight.
pub struct ReqHandle {
    abort_handle: AbortHandle,
    req_body_tx: Option<UnboundedSender<SendCmd>>,
    resp_stream_tx: Option<UnboundedSender<ReadOpts>>,
}

impl ReqHandle {
    /// Whether the handle has a queue of upload commands: the request body
    /// is uploaded in chunks.
    pub closed spec fn uploads(&self) -> bool {
        self.req_body_tx is Some
    }

    /// Whether the handle has a queue of read requests: the response body is
    /// read in chunks.
    pub closed spec fn reads(&self) -> bool {
        self.resp_stream_tx is Some
    }

    /// The handle of a request: its abort control, and the sending ends of
    /// the queues that the request has.
    pub fn new(
        abort_handle: AbortHandle,
        req_body_tx: Option<UnboundedSender<SendCmd>>,
        resp_stream_tx: Option<UnboundedSender<ReadOpts>>,
    ) -> (handle: ReqHandle)
        ensures
            handle.uploads() == req_body_tx is Some,
            handle.reads() == resp_stream_tx is Some,
    {
        ReqHandle { abort_handle, req_body_tx, resp_stream_tx }
    }

    /// Whether the handle has a queue of upload commands.
    pub fn has_upload(&self) -> (b: bool)
        ensures
            b == self.uploads(),
    {
        self.req_body_tx.is_some()
    }

    /// Whether the handle has a queue of read requests.
    pub fn has_reads(&self) -> (b: bool)
        ensures
            b == self.reads(),
    {
        self.resp_stream_tx.is_some()
    }

    /// Aborts the task of the request, at whatever point it has reached. To
    /// do so again, or after the request is over, is allowed and does
    /// nothing more: it always succeeds.
    pub fn cancel(&self) -> (r: Result<(), ReqError>)
        ensures
            r is Ok,
    {
        self.abort_handle.abort();
        Ok(())
    }

    /// Closes the queues of the request without aborting its task, so that
    /// what is in flight winds down by itself. It always succeeds.
    pub fn cancel_stream(&self) -> (r: Result<(), ReqError>)
        ensures
            r is Ok,
    {
        match &self.req_body_tx {
            Some(body_tx) => {
                body_tx.close_channel();
            },
            None => {},
        }
        match &self.resp_stream_tx {
            Some(resp_stream_tx) => {
                resp_stream_tx.close_channel();
            },
            None => {},
        }
        Ok(())
    }

    /// Puts the next chunk of the request body into the queue of upload
    /// commands. Fails where the handle has no such queue, and where the
    /// queue does not take the command.
    pub fn send(&self, data: Option<Vec<u8>>) -> (r: Result<(), ReqError>)
        ensures
            !self.uploads() ==> r is Err,
            r matches Err(e) ==> e == ReqError::BadArg,
    {
        match &self.req_body_tx {
            Some(body_tx) => usable(enqueue(body_tx, send_cmd(data))),
            None => Err(ReqError::BadArg),
        }
    }

    /// Puts the end of the request body into the queue of upload commands
    /// and, where the queue took it, closes the queue. Fails where the
    /// handle has no such queue, and where the queue does not take the
    /// command.
    pub fn finish_send(&self) -> (r: Result<(), ReqError>)
        ensures
            !self.uploads() ==> r is Err,
            r matches Err(e) ==> e == ReqError::BadArg,
    {
        match &self.req_body_tx {
            Some(body_tx) => {
                let taken = enqueue(body_tx, SendCmd::FinishSend);
                if taken {
                    body_tx.close_channel();
                }
                usable(taken)
            },
            None => Err(ReqError::BadArg),
        }
    }

    /// Puts a read request into the queue of read requests. Fails where the
    /// handle has no such queue, and where the queue does not take the
    /// request.
    pub fn read(&self, opts: ReadOpts) -> (r: Result<(), ReqError>)
        ensures
            !self.reads() ==> r is Err,
            r matches Err(e) ==> e == ReqError::BadArg,
    {
        match &self.resp_stream_tx {
            Some(resp_stream_tx) => usable(enqueue(resp_stream_tx, opts)),
            None => Err(ReqError::BadArg),
        }
    }
}

} // verus!
