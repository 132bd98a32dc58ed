//! What holds of every request, whatever happens to it: stated over the
//! histories of the engine and proved from its steps.

use crate::command::SendCmdView;
use crate::engine::{EffectView, EventView, Outcome, PhaseView, ReqView, Wait};
use crate::message::MessageView;
use vstd::prelude::*;

verus! {

/// Whether an effect sends a terminal message.
pub open spec fn is_terminal_effect(e: EffectView) -> bool {
    e matches EffectView::Emit(m) && m.is_terminal()
}

/// The bytes of the response body that an effect sends to the caller.
pub open spec fn payload_of(e: EffectView) -> Seq<u8> {
    match e {
        EffectView::Emit(m) => m.payload(),
        _ => Seq::empty(),
    }
}

/// All bytes of the response body that were sent to the caller, in order.
pub open spec fn delivered(effects: Seq<EffectView>) -> Seq<u8>
    decreases effects.len(),
{
    if effects.len() == 0 {
        Seq::empty()
    } else {
        delivered(effects.drop_last()) + payload_of(effects.last())
    }
}

/// The chunks that were fed into the upload channel, in order.
pub open spec fn feeds(effects: Seq<EffectView>) -> Seq<Seq<u8>>
    decreases effects.len(),
{
    if effects.len() == 0 {
        Seq::empty()
    } else {
        match effects.last() {
            EffectView::Feed(bytes) => feeds(effects.drop_last()).push(bytes),
            _ => feeds(effects.drop_last()),
        }
    }
}

/// How often the caller was told that the upload is ready for the next chunk.
pub open spec fn nexts(effects: Seq<EffectView>) -> nat
    decreases effects.len(),
{
    if effects.len() == 0 {
        0
    } else {
        nexts(effects.drop_last()) + (if effects.last() == EffectView::Emit(MessageView::Next) {
            1nat
        } else {
            0nat
        })
    }
}

/// The chunks that the caller sent, in the order in which they came out of
/// the queue.
pub open spec fn sends(events: Seq<EventView>) -> Seq<Seq<u8>>
    decreases events.len(),
{
    if events.len() == 0 {
        Seq::empty()
    } else {
        match events.last() {
            EventView::Command(SendCmdView::Send(bytes)) => sends(events.drop_last()).push(bytes),
            _ => sends(events.drop_last()),
        }
    }
}

/// How often the upload channel took a chunk.
pub open spec fn accepted(events: Seq<EventView>) -> nat
    decreases events.len(),
{
    if events.len() == 0 {
        0
    } else {
        accepted(events.drop_last()) + (if events.last() is FeedAccepted {
            1nat
        } else {
            0nat
        })
    }
}

/// The response body as far as the transport handed it over.
pub open spec fn received(events: Seq<EventView>) -> Seq<u8>
    decreases events.len(),
{
    if events.len() == 0 {
        Seq::empty()
    } else {
        match events.last() {
            EventView::Chunk(bytes) => received(events.drop_last()) + bytes,
            _ => received(events.drop_last()),
        }
    }
}

/// How many chunks of the response body, the last one included, were sent to
/// the caller.
pub open spec fn answers(effects: Seq<EffectView>) -> nat
    decreases effects.len(),
{
    if effects.len() == 0 {
        0
    } else {
        answers(effects.drop_last()) + (if is_chunk_effect(effects.last()) {
            1nat
        } else {
            0nat
        })
    }
}

/// Whether an effect sends a chunk of the response body, the last or not.
pub open spec fn is_chunk_effect(e: EffectView) -> bool {
    e matches EffectView::Emit(m) && (m is Chunk || m is Fin)
}

/// How many read requests came out of the queue.
pub open spec fn reads(events: Seq<EventView>) -> nat
    decreases events.len(),
{
    if events.len() == 0 {
        0
    } else {
        reads(events.drop_last()) + (if events.last() is Read {
            1nat
        } else {
            0nat
        })
    }
}

/// Whether the caller closed, somewhere in the history, the queue that the
/// engine was to read next.
pub open spec fn caller_closed(events: Seq<EventView>) -> bool {
    exists|i: int|
        0 <= i < events.len() && (#[trigger] events[i] is CommandsClosed
            || events[i] is ReadsClosed)
}

/// Whether the scheduler refused the task somewhere in the history.
pub open spec fn was_rejected(events: Seq<EventView>) -> bool {
    exists|i: int| 0 <= i < events.len() && #[trigger] events[i] is Rejected
}

broadcast proof fn lemma_delivered_push(a: Seq<EffectView>, e: EffectView)
    ensures
        #[trigger] delivered(a.push(e)) == delivered(a) + payload_of(e),
{
    assert(a.push(e).drop_last() =~= a);
}

broadcast proof fn lemma_delivered_add(a: Seq<EffectView>, b: Seq<EffectView>)
    ensures
        #[trigger] delivered(a + b) == delivered(a) + delivered(b),
    decreases b.len(),
{
    if b.len() == 0 {
        assert(a + b =~= a);
        assert(delivered(a) + delivered(b) =~= delivered(a));
    } else {
        assert((a + b).drop_last() =~= a + b.drop_last());
        lemma_delivered_add(a, b.drop_last());
        assert(delivered(a + b) =~= delivered(a) + delivered(b));
    }
}

broadcast proof fn lemma_feeds_push(a: Seq<EffectView>, e: EffectView)
    ensures
        #[trigger] feeds(a.push(e)) == (match e {
            EffectView::Feed(bytes) => feeds(a).push(bytes),
            _ => feeds(a),
        }),
{
    assert(a.push(e).drop_last() =~= a);
}

broadcast proof fn lemma_feeds_add(a: Seq<EffectView>, b: Seq<EffectView>)
    ensures
        #[trigger] feeds(a + b) == feeds(a) + feeds(b),
    decreases b.len(),
{
    if b.len() == 0 {
        assert(a + b =~= a);
        assert(feeds(a) + feeds(b) =~= feeds(a));
    } else {
        assert((a + b).drop_last() =~= a + b.drop_last());
        lemma_feeds_add(a, b.drop_last());
        assert(feeds(a + b) =~= feeds(a) + feeds(b));
    }
}

broadcast proof fn lemma_nexts_push(a: Seq<EffectView>, e: EffectView)
    ensures
        #[trigger] nexts(a.push(e)) == nexts(a) + (if e == EffectView::Emit(MessageView::Next) {
            1nat
        } else {
            0nat
        }),
{
    assert(a.push(e).drop_last() =~= a);
}

broadcast proof fn lemma_nexts_add(a: Seq<EffectView>, b: Seq<EffectView>)
    ensures
        #[trigger] nexts(a + b) == nexts(a) + nexts(b),
    decreases b.len(),
{
    if b.len() == 0 {
        assert(a + b =~= a);
    } else {
        assert((a + b).drop_last() =~= a + b.drop_last());
        lemma_nexts_add(a, b.drop_last());
    }
}

broadcast proof fn lemma_answers_push(a: Seq<EffectView>, e: EffectView)
    ensures
        #[trigger] answers(a.push(e)) == answers(a) + (if is_chunk_effect(e) {
            1nat
        } else {
            0nat
        }),
{
    assert(a.push(e).drop_last() =~= a);
}

broadcast proof fn lemma_answers_add(a: Seq<EffectView>, b: Seq<EffectView>)
    ensures
        #[trigger] answers(a + b) == answers(a) + answers(b),
    decreases b.len(),
{
    if b.len() == 0 {
        assert(a + b =~= a);
    } else {
        assert((a + b).drop_last() =~= a + b.drop_last());
        lemma_answers_add(a, b.drop_last());
    }
}

broadcast group tallies {
    lemma_answers_push,
    lemma_answers_add,
    lemma_delivered_push,
    lemma_delivered_add,
    lemma_feeds_push,
    lemma_feeds_add,
    lemma_nexts_push,
    lemma_nexts_add,
}

/// What one step does to the reply slot.
proof fn lemma_step_slot(s: ReqView, event: EventView)
    ensures
        ({
            let (t, effects) = s.step(event);
            &&& !s.slot_open() ==> t == s && effects.len() == 0
            &&& forall|i: int|
                0 <= i < effects.len() && is_terminal_effect(#[trigger] effects[i]) ==> i
                    == effects.len() - 1
            &&& s.slot_open() ==> ((t.phase == PhaseView::Done(Outcome::Data) || t.phase
                == PhaseView::Done(Outcome::Error)) <==> (effects.len() > 0 && is_terminal_effect(
                effects.last(),
            )))
            &&& s.slot_open() && t.phase == PhaseView::Done(Outcome::Abandoned) ==> (event
                is CommandsClosed || event is ReadsClosed)
            &&& s.slot_open() && t.phase == PhaseView::Done(Outcome::Rejected) ==> event
                is Rejected
        }),
{
}

/// The caller gets at most one terminal message, and nothing after it: in all
/// that the engine asks for in the course of any history, a terminal message
/// stands only at the very end. It gets one exactly if the request ended with
/// the response or a failure; a request that ended otherwise ended because
/// the caller had closed the queue that the engine was to read, or because
/// the scheduler refused the task.
pub proof fn law_one_terminal_reply(
    upload_streamed: bool,
    response_streamed: bool,
    events: Seq<EventView>,
)
    ensures
        ({
            let (end, effects) = ReqView::init(upload_streamed, response_streamed).run(events);
            &&& forall|i: int|
                0 <= i < effects.len() && is_terminal_effect(#[trigger] effects[i]) ==> i
                    == effects.len() - 1
            &&& (end.phase == PhaseView::Done(Outcome::Data) || end.phase == PhaseView::Done(
                Outcome::Error,
            )) <==> (effects.len() > 0 && is_terminal_effect(effects.last()))
            &&& end.phase == PhaseView::Done(Outcome::Abandoned) ==> caller_closed(events)
            &&& end.phase == PhaseView::Done(Outcome::Rejected) ==> was_rejected(events)
        }),
    decreases events.len(),
{
    let start = ReqView::init(upload_streamed, response_streamed);
    if events.len() > 0 {
        let earlier = events.drop_last();
        law_one_terminal_reply(upload_streamed, response_streamed, earlier);
        let (mid, before) = start.run(earlier);
        let (end, last) = mid.step(events.last());
        lemma_step_slot(mid, events.last());
        let effects = before + last;
        assert(start.run(events) == (end, effects));
        if caller_closed(earlier) {
            let i = choose|i: int|
                0 <= i < earlier.len() && (#[trigger] earlier[i] is CommandsClosed
                    || earlier[i] is ReadsClosed);
            assert(events[i] == earlier[i]);
        }
        if was_rejected(earlier) {
            let i = choose|i: int| 0 <= i < earlier.len() && #[trigger] earlier[i] is Rejected;
            assert(events[i] == earlier[i]);
        }
        if mid.slot_open() {
            assert(events[events.len() - 1] == events.last());
            assert forall|i: int|
                0 <= i < effects.len() && is_terminal_effect(#[trigger] effects[i]) implies i
                == effects.len() - 1 by {
                if i < before.len() {
                    assert(effects[i] == before[i]);
                } else {
                    assert(effects[i] == last[i - before.len()]);
                }
            }
        } else {
            assert(effects =~= before);
        }
    }
}

/// Cancelling is idempotent. Whatever state the engine is in, once it has
/// been told of its destruction the reply slot is used up, and to tell it
/// again changes nothing and sends nothing; and where the slot was used up
/// before, by the terminal reply or otherwise, the first telling changes
/// and sends nothing either.
pub proof fn law_cancel_idempotent(s: ReqView)
    ensures
        ({
            let (t, effects) = s.step(EventView::Cancelled);
            &&& !t.slot_open()
            &&& t.step(EventView::Cancelled).0 == t
            &&& t.step(EventView::Cancelled).1 == Seq::<EffectView>::empty()
            &&& !s.slot_open() ==> t == s && effects == Seq::<EffectView>::empty()
            &&& s.slot_open() ==> effects == seq![
                EffectView::Emit(MessageView::Error(crate::engine::cancelled_error())),
            ]
        }),
{
    let (t, effects) = s.step(EventView::Cancelled);
    assert(s.slot_open() ==> effects =~= seq![
        EffectView::Emit(MessageView::Error(crate::engine::cancelled_error())),
    ]);
}

/// Once the reply slot is used up the request is over: no event changes the
/// engine or makes it ask for anything.
pub proof fn law_over_is_over(s: ReqView, event: EventView)
    requires
        !s.slot_open(),
    ensures
        s.step(event).0 == s,
        s.step(event).1 == Seq::<EffectView>::empty(),
{
}

/// While the reply slot is open the engine waits for something, and once it
/// is used up the engine waits for nothing: a driver that waits for what the
/// engine wants never waits in vain, and stops when the request is over.
pub proof fn law_waits_while_open(s: ReqView)
    ensures
        s.slot_open() <==> s.wants() != Wait::Nothing,
{
}

/// An event that the engine is not waiting for changes nothing and makes it
/// ask for nothing.
pub proof fn law_unawaited_is_ignored(s: ReqView, event: EventView)
    requires
        !s.wants().admits(event),
    ensures
        s.step(event).0 == s,
        s.step(event).1 == Seq::<EffectView>::empty(),
{
}

/// What one step does to the upload: it feeds at most one chunk, or tells
/// the caller once that the next may come, not both; it feeds only out of the
/// wait for a command, and tells only when the channel took the chunk that
/// was being fed.
proof fn lemma_step_upload(s: ReqView, event: EventView)
    ensures
        ({
            let (t, effects) = s.step(event);
            let n = nexts(effects);
            let f = feeds(effects).len();
            &&& n + f <= 1
            &&& n == 1 ==> s.phase is Feeding && event is FeedAccepted && t.phase is AwaitCommand
            &&& f == 1 ==> s.phase is AwaitCommand && t.phase is Feeding
            &&& n + f == 0 && t.phase is Feeding ==> s.phase is Feeding
            &&& n + f == 0 && t.phase is AwaitCommand ==> s.phase is AwaitCommand || s.phase
                is Created
            &&& t.phase is Created ==> s.phase is Created && n + f == 0
        }),
{
    broadcast use tallies;

}

/// Backpressure. In any history the caller is told that the upload is ready
/// for the next chunk no more often than the upload channel took a chunk, and
/// a chunk is fed only when every chunk fed before it was taken and the
/// caller told so: the chunks fed are as many as the caller was told of, or
/// one more. So at most one chunk is in flight: one is, while the engine
/// feeds, and none is, while it waits for a command.
pub proof fn law_backpressure(
    upload_streamed: bool,
    response_streamed: bool,
    events: Seq<EventView>,
)
    ensures
        ({
            let (end, effects) = ReqView::init(upload_streamed, response_streamed).run(events);
            &&& nexts(effects) <= feeds(effects).len() <= nexts(effects) + 1
            &&& nexts(effects) <= accepted(events)
            &&& (end.phase is Created || end.phase is AwaitCommand) ==> feeds(effects).len()
                == nexts(effects)
            &&& end.phase is Feeding ==> feeds(effects).len() == nexts(effects) + 1
        }),
    decreases events.len(),
{
    let start = ReqView::init(upload_streamed, response_streamed);
    if events.len() > 0 {
        law_backpressure(upload_streamed, response_streamed, events.drop_last());
        let (mid, before) = start.run(events.drop_last());
        let (end, last) = mid.step(events.last());
        assert(start.run(events) == (end, before + last));
        lemma_step_upload(mid, events.last());
        lemma_nexts_add(before, last);
        lemma_feeds_add(before, last);
    }
}

/// The upload keeps its order. Where the driver reports only what the engine
/// waits for, the chunks fed into the upload channel are the chunks that the
/// caller sent, in the caller's order, none left out and none twice: all of
/// them while the upload is on, and a first part of them once the response
/// has overtaken the upload. And the caller is told that the next chunk may
/// come exactly once for each chunk that the upload channel took.
pub proof fn law_upload_in_order(
    upload_streamed: bool,
    response_streamed: bool,
    events: Seq<EventView>,
)
    requires
        ReqView::init(upload_streamed, response_streamed).well_driven(events),
    ensures
        ({
            let (end, effects) = ReqView::init(upload_streamed, response_streamed).run(events);
            &&& feeds(effects).is_prefix_of(sends(events))
            &&& (end.phase is Created || end.phase is AwaitCommand || end.phase is Feeding)
                ==> feeds(effects) == sends(events)
            &&& nexts(effects) == accepted(events)
        }),
    decreases events.len(),
{
    let start = ReqView::init(upload_streamed, response_streamed);
    if events.len() > 0 {
        law_upload_in_order(upload_streamed, response_streamed, events.drop_last());
        let (mid, before) = start.run(events.drop_last());
        let (end, last) = mid.step(events.last());
        assert(start.run(events) == (end, before + last));
        assert(mid.wants().admits(events.last()));
        lemma_step_upload(mid, events.last());
        lemma_nexts_add(before, last);
        lemma_feeds_add(before, last);
        lemma_step_sends(mid, events.last());
    }
}

/// What one step that the engine waits for does to the order of the upload:
/// a chunk that is fed is the chunk that came out of the queue in that step.
proof fn lemma_step_sends(s: ReqView, event: EventView)
    requires
        s.wants().admits(event),
    ensures
        ({
            let (t, effects) = s.step(event);
            &&& event matches EventView::Command(SendCmdView::Send(bytes)) ==> (s.phase
                is AwaitCommand && feeds(effects) == seq![bytes]) || (s.phase is ResponseHeld
                && feeds(effects).len() == 0 && !(t.phase is Created || t.phase is AwaitCommand
                || t.phase is Feeding))
            &&& !(event matches EventView::Command(SendCmdView::Send(_))) ==> feeds(
                effects,
            ).len() == 0
            &&& (t.phase is Created || t.phase is AwaitCommand || t.phase is Feeding) ==> (s.phase
                is Created || s.phase is AwaitCommand || s.phase is Feeding)
            &&& event is FeedAccepted ==> s.phase is Feeding
        }),
{
    broadcast use tallies;

}

/// The buffer of a read stays short of the length that was asked for: in a
/// read the engine holds fewer bytes than `length`, and outside of one it
/// holds none.
pub proof fn law_buffer_is_short(
    upload_streamed: bool,
    response_streamed: bool,
    events: Seq<EventView>,
)
    ensures
        ({
            let end = ReqView::init(upload_streamed, response_streamed).run(events).0;
            match end.phase {
                PhaseView::Reading(opts) => end.buf.len() < opts.length || end.buf.len() == 0,
                _ => end.buf.len() == 0,
            }
        }),
    decreases events.len(),
{
    let start = ReqView::init(upload_streamed, response_streamed);
    if events.len() > 0 {
        law_buffer_is_short(upload_streamed, response_streamed, events.drop_last());
    }
}

/// The part of the response body that an event hands over.
pub open spec fn taken(event: EventView) -> Seq<u8> {
    match event {
        EventView::Chunk(bytes) => bytes,
        _ => Seq::empty(),
    }
}

/// How what was sent on (`sent`) stands to what the transport handed over
/// (`got`), with the engine in state `s`.
spec fn reassembles(s: ReqView, sent: Seq<u8>, got: Seq<u8>) -> bool {
    &&& sent.is_prefix_of(got)
    &&& s.phase is Reading ==> sent + s.buf == got
    &&& (s.phase is AwaitRead || s.phase == PhaseView::Done(Outcome::Data)) ==> sent == got
    &&& !(s.phase is Reading || s.phase is AwaitRead || s.phase is Done) ==> got.len() == 0
    &&& !(s.phase is Reading) ==> s.buf.len() == 0
}

/// A step that the engine waits for keeps what was sent on in step with what
/// the transport handed over.
proof fn lemma_step_reassembles(s: ReqView, event: EventView, sent: Seq<u8>, got: Seq<u8>)
    requires
        reassembles(s, sent, got),
        s.wants().admits(event),
    ensures
        reassembles(s.step(event).0, sent + delivered(s.step(event).1), got + taken(event)),
{
    broadcast use tallies;

    let (t, effects) = s.step(event);
    let sent1 = sent + delivered(effects);
    let got1 = got + taken(event);
    assert(s.buf + Seq::<u8>::empty() =~= s.buf);
    if s.phase is Reading {
        if t.phase is Reading {
            assert(sent1 + t.buf =~= got1);
        } else if t.phase is AwaitRead || t.phase == PhaseView::Done(Outcome::Data) {
            assert(sent1 =~= got1);
        } else {
            assert(sent1 =~= sent);
            assert(got1 =~= got);
        }
    } else {
        assert(got1 =~= got);
        assert(sent1 =~= sent);
    }
    assert(sent1 =~= got1.subrange(0, sent1.len() as int));
}

/// Chunked reads reassemble the body. Where the driver reports only what the
/// engine waits for, then however the caller chooses the length and the
/// period of its reads, the chunks sent to the caller, put together in
/// order, are a first part of the body that the transport handed over: all
/// of it but what the current read still holds; and all of it between reads
/// and once the last chunk is sent.
pub proof fn law_chunks_reassemble(
    upload_streamed: bool,
    response_streamed: bool,
    events: Seq<EventView>,
)
    requires
        ReqView::init(upload_streamed, response_streamed).well_driven(events),
    ensures
        ({
            let (end, effects) = ReqView::init(upload_streamed, response_streamed).run(events);
            &&& delivered(effects).is_prefix_of(received(events))
            &&& end.phase is Reading ==> delivered(effects) + end.buf == received(events)
            &&& (end.phase is AwaitRead || end.phase == PhaseView::Done(Outcome::Data))
                ==> delivered(effects) == received(events)
        }),
{
    lemma_run_reassembles(upload_streamed, response_streamed, events);
}

proof fn lemma_run_reassembles(
    upload_streamed: bool,
    response_streamed: bool,
    events: Seq<EventView>,
)
    requires
        ReqView::init(upload_streamed, response_streamed).well_driven(events),
    ensures
        ({
            let (end, effects) = ReqView::init(upload_streamed, response_streamed).run(events);
            reassembles(end, delivered(effects), received(events))
        }),
    decreases events.len(),
{
    let start = ReqView::init(upload_streamed, response_streamed);
    if events.len() > 0 {
        let earlier = events.drop_last();
        lemma_run_reassembles(upload_streamed, response_streamed, earlier);
        let (mid, before) = start.run(earlier);
        lemma_step_reassembles(mid, events.last(), delivered(before), received(earlier));
        lemma_delivered_add(before, mid.step(events.last()).1);
    } else {
        assert(delivered(Seq::<EffectView>::empty()) =~= received(events).subrange(0, 0));
    }
}

/// The period is a matter of liveness, not of content. Where a read with a
/// period is under way and the period ends, the engine sends what the read
/// holds as one more chunk, shorter than the length asked for and possibly
/// empty, and waits for the next read; with that chunk the caller has the
/// whole of what the transport handed over so far, each byte once.
pub proof fn law_period_flush(
    upload_streamed: bool,
    response_streamed: bool,
    events: Seq<EventView>,
)
    requires
        ReqView::init(upload_streamed, response_streamed).well_driven(events),
        ReqView::init(upload_streamed, response_streamed).run(events).0.wants()
            == Wait::ChunkOrPeriod,
    ensures
        ({
            let start = ReqView::init(upload_streamed, response_streamed);
            let (mid, before) = start.run(events);
            let (end, effects) = start.run(events.push(EventView::PeriodElapsed));
            &&& start.well_driven(events.push(EventView::PeriodElapsed))
            &&& end.phase is AwaitRead
            &&& effects == before.push(EffectView::Emit(MessageView::Chunk(mid.buf)))
            &&& delivered(effects) == received(events)
            &&& received(events.push(EventView::PeriodElapsed)) == received(events)
            &&& mid.phase matches PhaseView::Reading(opts) && (mid.buf.len() < opts.length
                || mid.buf.len() == 0)
        }),
{
    broadcast use tallies;

    let start = ReqView::init(upload_streamed, response_streamed);
    let longer = events.push(EventView::PeriodElapsed);
    assert(longer.drop_last() =~= events);
    assert(longer.last() == EventView::PeriodElapsed);
    law_chunks_reassemble(upload_streamed, response_streamed, events);
    law_buffer_is_short(upload_streamed, response_streamed, events);
    let (mid, before) = start.run(events);
    let (end, last) = mid.step(EventView::PeriodElapsed);
    assert(start.run(longer) == (end, before + last));
    assert(before + last =~= before.push(EffectView::Emit(MessageView::Chunk(mid.buf))));
}

/// What one step that the engine waits for does to the reads: it takes a
/// read only between reads, and sends a chunk only in a read, which the chunk
/// ends.
proof fn lemma_step_pull(s: ReqView, event: EventView)
    requires
        s.wants().admits(event),
    ensures
        ({
            let (t, effects) = s.step(event);
            let a = answers(effects);
            let r: nat = if event is Read {
                1
            } else {
                0
            };
            &&& a + r <= 1
            &&& a == 1 ==> s.phase is Reading && !(t.phase is Reading)
            &&& r == 1 ==> s.phase is AwaitRead && t.phase is Reading
            &&& a + r == 0 && t.phase is Reading ==> s.phase is Reading
            &&& a + r == 0 && t.phase is AwaitRead ==> s.phase is AwaitRead || !(s.phase
                is Reading || s.phase is Done)
            &&& a == 1 ==> t.phase is AwaitRead || t.phase is Done
            &&& !(t.phase is Reading || t.phase is AwaitRead || t.phase is Done) ==> !(s.phase
                is Reading || s.phase is AwaitRead || s.phase is Done)
            &&& s.phase is Done ==> t.phase is Done
        }),
{
    broadcast use tallies;

}

/// The pull protocol. Where the driver reports only what the engine waits
/// for, each read of the caller is answered by one chunk, the last one or
/// not, before the next read is taken: between reads every read has had its
/// chunk, and in a read every read but the current one has. (A read that is
/// under way when the request fails or is cancelled is answered by that
/// failure.)
pub proof fn law_pull_protocol(
    upload_streamed: bool,
    response_streamed: bool,
    events: Seq<EventView>,
)
    requires
        ReqView::init(upload_streamed, response_streamed).well_driven(events),
    ensures
        ({
            let (end, effects) = ReqView::init(upload_streamed, response_streamed).run(events);
            &&& answers(effects) <= reads(events) <= answers(effects) + 1
            &&& end.phase is AwaitRead ==> reads(events) == answers(effects)
            &&& end.phase is Reading ==> reads(events) == answers(effects) + 1
            &&& !(end.phase is Reading || end.phase is AwaitRead || end.phase is Done)
                ==> reads(events) == 0
        }),
    decreases events.len(),
{
    let start = ReqView::init(upload_streamed, response_streamed);
    if events.len() > 0 {
        law_pull_protocol(upload_streamed, response_streamed, events.drop_last());
        let (mid, before) = start.run(events.drop_last());
        lemma_step_pull(mid, events.last());
        lemma_answers_add(before, mid.step(events.last()).1);
    }
}

/// Resources go before replies. Of what the engine asks for in one step, a
/// terminal message comes last; the exchange with the transport is let go
/// before the upload channel is closed; and the upload channel is closed at
/// most once, and only while the engine has it open.
pub proof fn law_release_before_reply(s: ReqView, event: EventView)
    ensures
        ({
            let (t, effects) = s.step(event);
            &&& forall|i: int|
                0 <= i < effects.len() && is_terminal_effect(#[trigger] effects[i]) ==> i
                    == effects.len() - 1
            &&& forall|i: int, j: int|
                0 <= i < effects.len() && 0 <= j < effects.len() && #[trigger] effects[i]
                    == EffectView::DropTransport && #[trigger] effects[j]
                    == EffectView::CloseUpload ==> i < j
            &&& forall|i: int, j: int|
                0 <= i < effects.len() && 0 <= j < effects.len() && #[trigger] effects[i]
                    == EffectView::CloseUpload && #[trigger] effects[j]
                    == EffectView::CloseUpload ==> i == j && s.upload_open && !t.upload_open
        }),
{
}

} // verus!
