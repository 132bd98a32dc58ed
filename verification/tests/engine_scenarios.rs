use erqwest::command::{ReadOpts, SendCmd};
use erqwest::engine::{Effect, Event, Outcome, Wait};
use erqwest::error::{Error, ErrorCode};
use erqwest::message::{Message, Resp, ResponseHead};
use erqwest::method::Method;
use erqwest::req::Req;
use erqwest::request::{BodyMode, ReqBody, ReqData, TransportRequest};

fn get(url: &str) -> ReqData {
    ReqData {
        url: url.as_bytes().to_vec(),
        headers: vec![],
        method: Method::Get,
        body: None,
        timeout: None,
    }
}

fn head() -> ResponseHead {
    ResponseHead { status: 200, headers: vec![(b"content-type".to_vec(), b"text/plain".to_vec())] }
}

fn messages(effects: &[Effect]) -> Vec<Message> {
    let mut out = Vec::new();
    for e in effects {
        if let Effect::Emit(m) = e {
            out.push(m.clone());
        }
    }
    out
}

fn terminal_count(effects: &[Effect]) -> usize {
    messages(effects).iter().filter(|m| m.is_terminal()).count()
}

fn cancelled() -> Effect {
    Effect::Emit(Message::Error(Error {
        code: ErrorCode::Cancelled,
        reason: "future dropped".to_string(),
    }))
}

/// An engine whose response is streamed and whose head has arrived.
fn reading() -> Req {
    let mut req = Req::new(false, true);
    let effects = req.start(get("http://localhost/"));
    assert_eq!(effects.len(), 1);
    assert_eq!(req.wants(), Wait::Response);
    let effects = req.run(Event::Response(Ok(head())));
    assert_eq!(
        effects,
        vec![Effect::Emit(Message::Reply(Resp {
            status: 200,
            headers: vec![(b"content-type".to_vec(), b"text/plain".to_vec())],
            body: None,
        }))]
    );
    assert_eq!(req.wants(), Wait::Read);
    req
}

/// Reads a body that the transport hands over in `parts`, each read with the
/// given length and no period, and returns the messages.
fn read_all(parts: &[Vec<u8>], length: usize) -> Vec<Message> {
    let mut req = reading();
    let mut out = Vec::new();
    let mut next = 0;
    loop {
        match req.wants() {
            Wait::Read => {
                assert_eq!(req.run(Event::Read(ReadOpts::new(Some(length), None))), vec![]);
            }
            Wait::Chunk => {
                let event = if next < parts.len() {
                    next += 1;
                    Event::Chunk(parts[next - 1].clone())
                } else {
                    Event::EndOfBody
                };
                out.extend(messages(&req.run(event)));
            }
            Wait::Nothing => break,
            other => panic!("unexpected wait {:?}", other),
        }
    }
    assert_eq!(req.outcome(), Some(Outcome::Data));
    out
}

fn payloads(messages: &[Message]) -> Vec<u8> {
    let mut out = Vec::new();
    for m in messages {
        match m {
            Message::Chunk(b) | Message::Fin(b) => out.extend_from_slice(b),
            other => panic!("unexpected message {:?}", other),
        }
    }
    out
}

#[test]
fn streamed_upload_of_two_chunks_is_echoed() {
    let mut data = get("http://localhost:8080/echo");
    data.method = Method::Post;
    data.body = Some(ReqBody::Stream);
    let mut req = Req::new(true, false);
    let mut all: Vec<Effect> = Vec::new();

    let effects = req.start(data);
    assert_eq!(
        effects,
        vec![Effect::Transport(TransportRequest {
            method: Method::Post,
            url: "http://localhost:8080/echo".to_string(),
            headers: vec![],
            timeout: None,
            body: Some(BodyMode::Streamed),
        })]
    );
    all.extend(effects);
    assert_eq!(req.wants(), Wait::CommandOrResponse);

    let first = vec![1u8; 10];
    let second = vec![2u8; 10];
    let effects = req.run(Event::Command(SendCmd::Send(first.clone())));
    assert_eq!(effects, vec![Effect::Feed(first.clone())]);
    all.extend(effects);
    assert_eq!(req.wants(), Wait::FeedOrResponse);
    let effects = req.run(Event::FeedAccepted);
    assert_eq!(effects, vec![Effect::Emit(Message::Next)]);
    all.extend(effects);

    all.extend(req.run(Event::Command(SendCmd::Send(second.clone()))));
    all.extend(req.run(Event::FeedAccepted));

    let effects = req.run(Event::Command(SendCmd::FinishSend));
    assert_eq!(effects, vec![Effect::CloseUpload]);
    all.extend(effects);
    assert_eq!(req.wants(), Wait::Response);

    let effects = req.run(Event::Response(Ok(head())));
    assert_eq!(effects, vec![]);
    assert_eq!(req.wants(), Wait::Body);

    let mut echoed = first.clone();
    echoed.extend_from_slice(&second);
    assert_eq!(echoed.len(), 20);
    all.extend(req.run(Event::Body(Ok(echoed.clone()))));

    assert_eq!(
        messages(&all),
        vec![
            Message::Next,
            Message::Next,
            Message::Reply(Resp {
                status: 200,
                headers: vec![(b"content-type".to_vec(), b"text/plain".to_vec())],
                body: Some(echoed),
            }),
        ]
    );
    assert_eq!(req.outcome(), Some(Outcome::Data));
    assert_eq!(req.wants(), Wait::Nothing);
}

#[test]
fn hundred_bytes_read_by_forty() {
    let parts: Vec<Vec<u8>> = (0..5u8).map(|i| vec![i; 20]).collect();
    let got = read_all(&parts, 40);
    let mut first = vec![0u8; 20];
    first.extend_from_slice(&[1u8; 20]);
    let mut second = vec![2u8; 20];
    second.extend_from_slice(&[3u8; 20]);
    assert_eq!(
        got,
        vec![Message::Chunk(first), Message::Chunk(second), Message::Fin(vec![4u8; 20])]
    );
}

#[test]
fn cancel_right_after_the_request_never_replies_with_success() {
    // the task was taken and is destroyed before it ran
    let mut req = Req::new(false, false);
    assert_eq!(req.run(Event::Cancelled), vec![cancelled()]);
    assert_eq!(req.outcome(), Some(Outcome::Error));
    assert_eq!(req.run(Event::Response(Ok(head()))), vec![]);
    assert_eq!(req.run(Event::Body(Ok(vec![1, 2, 3]))), vec![]);

    // the task ran, and is destroyed before the network answered
    let mut req = Req::new(false, false);
    req.start(get("http://localhost/"));
    assert_eq!(req.run(Event::Cancelled), vec![cancelled()]);
    assert_eq!(req.run(Event::Response(Ok(head()))), vec![]);

    // the scheduler never took the task: silence
    let mut req = Req::new(true, true);
    assert!(!req.spawn_failed());
    assert_eq!(req.run(Event::Rejected), vec![]);
    assert!(req.spawn_failed());
    assert_eq!(req.outcome(), Some(Outcome::Rejected));
    assert_eq!(req.run(Event::Cancelled), vec![]);
}

#[test]
fn malformed_url_fails_at_once_without_network() {
    let mut req = Req::new(false, false);
    let effects = req.start(get("not a url"));
    assert_eq!(
        effects,
        vec![Effect::Emit(Message::Error(Error {
            code: ErrorCode::Url,
            reason: "relative URL without a base".to_string(),
        }))]
    );
    assert_eq!(req.outcome(), Some(Outcome::Error));
    assert_eq!(req.wants(), Wait::Nothing);
    assert_eq!(req.run(Event::Read(ReadOpts::new(None, None))), vec![]);
}

#[test]
fn url_that_is_not_utf8_fails_at_once() {
    let mut req = Req::new(false, false);
    let mut data = get("http://localhost/");
    data.url.push(0xff);
    let effects = req.start(data);
    assert_eq!(effects.len(), 1);
    match &effects[0] {
        Effect::Emit(Message::Error(e)) => assert_eq!(e.code, ErrorCode::Url),
        other => panic!("unexpected effect {:?}", other),
    }
    assert_eq!(req.outcome(), Some(Outcome::Error));
}

#[test]
fn at_most_one_terminal_message_whatever_follows() {
    let mut req = Req::new(true, true);
    let mut all = Vec::new();
    let mut data = get("http://localhost/");
    data.body = Some(ReqBody::Stream);
    all.extend(req.start(data));
    all.extend(req.run(Event::Command(SendCmd::FinishSend)));
    all.extend(req.run(Event::Response(Ok(head()))));
    all.extend(req.run(Event::Read(ReadOpts::new(Some(4), None))));
    all.extend(req.run(Event::Chunk(vec![1, 2, 3])));
    all.extend(req.run(Event::EndOfBody));
    assert_eq!(terminal_count(&all), 1);
    assert_eq!(all.last(), Some(&Effect::Emit(Message::Fin(vec![1, 2, 3]))));
    let after = all.len();
    all.extend(req.run(Event::Cancelled));
    all.extend(req.run(Event::EndOfBody));
    all.extend(req.run(Event::ChunkFailed(Error::from_reason(ErrorCode::Body, "late"))));
    all.extend(req.run(Event::Response(Err(Error::from_reason(ErrorCode::Timeout, "late")))));
    all.extend(req.run(Event::ReadsClosed));
    all.extend(req.run(Event::Rejected));
    assert_eq!(all.len(), after);
    assert_eq!(req.outcome(), Some(Outcome::Data));
}

#[test]
fn closed_queues_end_the_request_in_silence() {
    // the caller closes the upload queue before any command
    let mut req = Req::new(true, false);
    let mut data = get("http://localhost/");
    data.body = Some(ReqBody::Stream);
    req.start(data);
    assert_eq!(
        req.run(Event::CommandsClosed),
        vec![Effect::DropTransport, Effect::CloseUpload]
    );
    assert_eq!(req.outcome(), Some(Outcome::Abandoned));

    // the caller closes the read queue between reads
    let mut req = reading();
    assert_eq!(req.run(Event::ReadsClosed), vec![]);
    assert_eq!(req.outcome(), Some(Outcome::Abandoned));
    assert_eq!(req.run(Event::Cancelled), vec![]);
}

#[test]
fn response_that_overtakes_an_idle_upload_waits_for_the_next_command() {
    let mut req = Req::new(true, false);
    let mut data = get("http://localhost/");
    data.body = Some(ReqBody::Stream);
    req.start(data);
    assert_eq!(req.run(Event::Response(Ok(head()))), vec![]);
    assert_eq!(req.wants(), Wait::Command);
    // the command decides: the response is delivered, the chunk is moot
    assert_eq!(req.run(Event::Command(SendCmd::Send(vec![9; 4]))), vec![Effect::CloseUpload]);
    assert_eq!(req.wants(), Wait::Body);

    let mut req = Req::new(true, false);
    let mut data = get("http://localhost/");
    data.body = Some(ReqBody::Stream);
    req.start(data);
    req.run(Event::Response(Err(Error::from_reason(ErrorCode::Connect, "refused"))));
    assert_eq!(req.outcome(), None);
    assert_eq!(
        req.run(Event::Command(SendCmd::FinishSend)),
        vec![
            Effect::DropTransport,
            Effect::CloseUpload,
            Effect::Emit(Message::Error(Error::from_reason(ErrorCode::Connect, "refused"))),
        ]
    );

    let mut req = Req::new(true, false);
    let mut data = get("http://localhost/");
    data.body = Some(ReqBody::Stream);
    req.start(data);
    req.run(Event::Response(Ok(head())));
    assert_eq!(
        req.run(Event::CommandsClosed),
        vec![Effect::DropTransport, Effect::CloseUpload]
    );
    assert_eq!(req.outcome(), Some(Outcome::Abandoned));
}

#[test]
fn response_wins_over_a_chunk_in_flight() {
    let mut req = Req::new(true, true);
    let mut data = get("http://localhost/");
    data.body = Some(ReqBody::Stream);
    req.start(data);
    req.run(Event::Command(SendCmd::Send(vec![1; 8])));
    assert_eq!(req.wants(), Wait::FeedOrResponse);
    let effects = req.run(Event::Response(Ok(head())));
    assert_eq!(
        effects,
        vec![
            Effect::CloseUpload,
            Effect::Emit(Message::Reply(Resp {
                status: 200,
                headers: vec![(b"content-type".to_vec(), b"text/plain".to_vec())],
                body: None,
            })),
        ]
    );
    // the feed is given up: its late outcome changes nothing
    assert_eq!(req.run(Event::FeedAccepted), vec![]);
    assert_eq!(req.run(Event::FeedFailed), vec![]);
    assert_eq!(req.wants(), Wait::Read);
}

#[test]
fn a_refused_feed_waits_for_the_response() {
    let mut req = Req::new(true, false);
    let mut data = get("http://localhost/");
    data.body = Some(ReqBody::Stream);
    req.start(data);
    req.run(Event::Command(SendCmd::Send(vec![1; 8])));
    assert_eq!(req.run(Event::FeedFailed), vec![]);
    assert_eq!(req.wants(), Wait::Response);
    assert_eq!(req.run(Event::Command(SendCmd::Send(vec![2; 8]))), vec![]);
    assert_eq!(req.run(Event::Response(Ok(head()))), vec![Effect::CloseUpload]);
    assert_eq!(req.wants(), Wait::Body);
}

#[test]
fn malformed_chunk_is_a_request_failure() {
    let mut req = Req::new(true, false);
    let mut data = get("http://localhost/");
    data.body = Some(ReqBody::Stream);
    req.start(data);
    assert_eq!(
        req.run(Event::Command(SendCmd::Malformed)),
        vec![
            Effect::DropTransport,
            Effect::CloseUpload,
            Effect::Emit(Message::Error(Error {
                code: ErrorCode::Request,
                reason: "invalid iodata".to_string(),
            })),
        ]
    );
    assert_eq!(req.outcome(), Some(Outcome::Error));
}

#[test]
fn no_next_before_the_chunk_is_taken_and_chunks_keep_their_order() {
    let mut req = Req::new(true, false);
    let mut data = get("http://localhost/");
    data.body = Some(ReqBody::Stream);
    req.start(data);
    // the caller has put two chunks into the queue without waiting: the
    // engine takes the second only when the first is through
    let queue = vec![vec![1u8; 3], vec![2u8; 3]];
    let mut fed = Vec::new();
    let mut nexts = 0;
    let mut taken = 0;
    while taken < queue.len() || req.wants() == Wait::FeedOrResponse {
        let effects = match req.wants() {
            Wait::CommandOrResponse => {
                taken += 1;
                req.run(Event::Command(SendCmd::Send(queue[taken - 1].clone())))
            }
            Wait::FeedOrResponse => {
                assert_eq!(nexts + 1, fed.len());
                req.run(Event::FeedAccepted)
            }
            other => panic!("unexpected wait {:?}", other),
        };
        for e in effects {
            match e {
                Effect::Feed(bytes) => {
                    assert_eq!(nexts, fed.len());
                    fed.push(bytes);
                }
                Effect::Emit(Message::Next) => nexts += 1,
                other => panic!("unexpected effect {:?}", other),
            }
        }
    }
    assert_eq!(fed, queue);
    assert_eq!(nexts, 2);
}

#[test]
fn chunks_reassemble_whatever_the_length() {
    let parts: Vec<Vec<u8>> = vec![
        (0..7u8).collect(),
        (7..8u8).collect(),
        vec![],
        (8..40u8).collect(),
        (40..100u8).collect(),
    ];
    let body: Vec<u8> = (0..100u8).collect();
    for length in [0usize, 1, 7, 8, 33, 40, 99, 100, 101, 8388608] {
        let got = read_all(&parts, length);
        assert_eq!(payloads(&got), body, "length {}", length);
        assert!(matches!(got.last(), Some(Message::Fin(_))));
        assert_eq!(got.iter().filter(|m| m.is_terminal()).count(), 1);
    }
}

#[test]
fn a_chunk_is_flushed_once_the_length_is_reached() {
    let mut req = reading();
    req.run(Event::Read(ReadOpts::new(Some(5), None)));
    assert_eq!(req.run(Event::Chunk(vec![1, 2])), vec![]);
    assert_eq!(req.run(Event::Chunk(vec![3, 4])), vec![]);
    assert_eq!(
        req.run(Event::Chunk(vec![5, 6, 7])),
        vec![Effect::Emit(Message::Chunk(vec![1, 2, 3, 4, 5, 6, 7]))]
    );
    assert_eq!(req.wants(), Wait::Read);
    // the buffer starts empty with the next read
    req.run(Event::Read(ReadOpts::new(Some(1), None)));
    assert_eq!(req.run(Event::Chunk(vec![8])), vec![Effect::Emit(Message::Chunk(vec![8]))]);
    req.run(Event::Read(ReadOpts::new(None, None)));
    assert_eq!(
        req.run(Event::EndOfBody),
        vec![Effect::DropReads, Effect::Emit(Message::Fin(vec![]))]
    );
}

#[test]
fn a_short_period_loses_and_repeats_nothing() {
    let mut req = reading();
    let mut out = Vec::new();
    assert_eq!(
        req.run(Event::Read(ReadOpts::new(Some(10), Some(1)))),
        vec![Effect::Timer(1)]
    );
    assert_eq!(req.wants(), Wait::ChunkOrPeriod);
    // the period ends before anything came: an empty chunk
    let effects = req.run(Event::PeriodElapsed);
    assert_eq!(effects, vec![Effect::Emit(Message::Chunk(vec![]))]);
    out.extend(messages(&effects));
    req.run(Event::Read(ReadOpts::new(Some(10), Some(1))));
    assert_eq!(req.run(Event::Chunk(vec![1, 2, 3])), vec![]);
    // the period ends with a part of what was asked for: a short chunk
    let effects = req.run(Event::PeriodElapsed);
    assert_eq!(effects, vec![Effect::Emit(Message::Chunk(vec![1, 2, 3]))]);
    out.extend(messages(&effects));
    req.run(Event::Read(ReadOpts::new(Some(10), Some(1))));
    req.run(Event::Chunk(vec![4, 5]));
    out.extend(messages(&req.run(Event::EndOfBody)));
    assert_eq!(payloads(&out), vec![1, 2, 3, 4, 5]);
    assert_eq!(out.len(), 3);
}

#[test]
fn without_a_period_its_end_is_not_awaited() {
    let mut req = reading();
    assert_eq!(req.run(Event::Read(ReadOpts::new(Some(10), None))), vec![]);
    assert_eq!(req.wants(), Wait::Chunk);
    req.run(Event::Chunk(vec![1]));
    assert_eq!(req.run(Event::PeriodElapsed), vec![]);
    assert_eq!(req.wants(), Wait::Chunk);
    assert_eq!(
        req.run(Event::EndOfBody),
        vec![Effect::DropReads, Effect::Emit(Message::Fin(vec![1]))]
    );
}

#[test]
fn a_failure_while_reading_ends_the_request() {
    let mut req = reading();
    req.run(Event::Read(ReadOpts::new(Some(10), None)));
    req.run(Event::Chunk(vec![1]));
    assert_eq!(
        req.run(Event::ChunkFailed(Error::from_reason(ErrorCode::Body, "reset"))),
        vec![
            Effect::DropReads,
            Effect::Emit(Message::Error(Error::from_reason(ErrorCode::Body, "reset"))),
        ]
    );
    assert_eq!(req.outcome(), Some(Outcome::Error));
}

#[test]
fn a_failed_exchange_is_reported_once() {
    let mut req = Req::new(false, false);
    req.start(get("http://localhost/"));
    assert_eq!(
        req.run(Event::Response(Err(Error::from_reason(ErrorCode::Timeout, "slow")))),
        vec![
            Effect::DropTransport,
            Effect::Emit(Message::Error(Error::from_reason(ErrorCode::Timeout, "slow"))),
        ]
    );
    let mut req = Req::new(false, false);
    req.start(get("http://localhost/"));
    req.run(Event::Response(Ok(head())));
    assert_eq!(
        req.run(Event::Body(Err(Error::from_reason(ErrorCode::Body, "cut")))),
        vec![Effect::Emit(Message::Error(Error::from_reason(ErrorCode::Body, "cut")))]
    );
    assert_eq!(req.run(Event::Body(Ok(vec![]))), vec![]);
}

#[test]
fn cancelling_twice_is_cancelling_once() {
    let mut req = reading();
    req.run(Event::Read(ReadOpts::new(Some(10), None)));
    assert_eq!(req.run(Event::Cancelled), vec![cancelled()]);
    assert_eq!(req.run(Event::Cancelled), vec![]);
    assert_eq!(req.run(Event::Cancelled), vec![]);
    assert_eq!(req.outcome(), Some(Outcome::Error));

    // after the terminal reply
    let mut req = Req::new(false, false);
    req.start(get("http://localhost/"));
    req.run(Event::Response(Ok(head())));
    assert_eq!(req.run(Event::Body(Ok(vec![7]))).len(), 1);
    assert_eq!(req.run(Event::Cancelled), vec![]);
    assert_eq!(req.outcome(), Some(Outcome::Data));
}

#[test]
fn events_that_are_not_awaited_are_ignored() {
    let mut req = Req::new(true, true);
    assert_eq!(req.wants(), Wait::Start);
    assert_eq!(req.run(Event::Command(SendCmd::FinishSend)), vec![]);
    assert_eq!(req.run(Event::Chunk(vec![1])), vec![]);
    assert_eq!(req.run(Event::Read(ReadOpts::new(None, None))), vec![]);
    assert_eq!(req.wants(), Wait::Start);
    let mut data = get("http://localhost/");
    data.body = Some(ReqBody::Stream);
    req.start(data);
    assert_eq!(req.run(Event::FeedAccepted), vec![]);
    assert_eq!(req.run(Event::Body(Ok(vec![]))), vec![]);
    assert_eq!(req.run(Event::Rejected), vec![]);
    assert_eq!(req.wants(), Wait::CommandOrResponse);
}
