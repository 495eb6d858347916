use vstd::prelude::*;

use crate::events::ProcessEvent;
use crate::events::all_outputs;
use crate::events::lemma_all_outputs_push;
use crate::events::lemma_outputs_then_terminated_wf;
use crate::events::lemma_payload_concat_push;
use crate::events::payload_concat;
use crate::events::stream_wf;
use crate::pty::PtyReader;
use crate::pty::read_chunk;
use crate::pty::reader_delivered;
use crate::pty::reader_done;
use crate::sink::EventSender;
use crate::sink::send_event;
use crate::sink::sink_closed;
use crate::sink::sink_sent;

verus! {

/// The events one relay run appended to the sink: everything the consumer
/// observes of the session beyond what the sink had already carried.
pub open spec fn session_events(pre: EventSender, post: EventSender) -> Seq<ProcessEvent> {
    sink_sent(post).skip(sink_sent(pre).len() as int)
}

/// The bytes one relay run drained from the pty.
pub open spec fn session_bytes(pre: PtyReader, post: PtyReader) -> Seq<u8> {
    reader_delivered(post).skip(reader_delivered(pre).len() as int)
}

proof fn lemma_self_prefix<A>(s: Seq<A>)
    ensures
        s.is_prefix_of(s),
{
    assert(s =~= s.subrange(0, s.len() as int));
}

proof fn lemma_prefix_of_concat<A>(s: Seq<A>, u: Seq<A>)
    ensures
        s.is_prefix_of(s + u),
{
    assert(s =~= (s + u).subrange(0, s.len() as int));
}

proof fn lemma_prefix_append<A>(s: Seq<A>, t: Seq<A>, u: Seq<A>)
    requires
        s.is_prefix_of(t),
    ensures
        s.is_prefix_of(t + u),
{
    assert(s =~= (t + u).subrange(0, s.len() as int));
}

proof fn lemma_prefix_push<A>(s: Seq<A>, t: Seq<A>, e: A)
    requires
        s.is_prefix_of(t),
    ensures
        s.is_prefix_of(t.push(e)),
{
    assert(t.push(e) =~= t + seq![e]);
    lemma_prefix_append(s, t, seq![e]);
}

proof fn lemma_skip_append<A>(t: Seq<A>, u: Seq<A>, k: int)
    requires
        0 <= k <= t.len(),
    ensures
        (t + u).skip(k) == t.skip(k) + u,
{
    assert((t + u).skip(k) =~= t.skip(k) + u);
}

proof fn lemma_skip_push<A>(t: Seq<A>, e: A, k: int)
    requires
        0 <= k <= t.len(),
    ensures
        t.push(e).skip(k) == t.skip(k).push(e),
{
    assert(t.push(e).skip(k) =~= t.skip(k).push(e));
}

/// The output relay: drains the pty's read endpoint and forwards each chunk
/// as an `Output` event until end-of-stream, a read error, or the
/// consumer's disconnection, then sends one `Terminated` sentinel,
/// best-effort.
///
/// The contract is the session's shape as the consumer observes it. So long
/// as the consumer stays connected, the events this run appended form the
/// exact byte stream the pty delivered, chunked into non-empty `Output`
/// events and closed by `Terminated`, last and alone; and the relay read
/// to the very end of the stream — unless the session somehow outran the
/// loop's step budget of `u64::MAX` events, which no real stream reaches.
/// Whatever happens, the appended stream is well formed and never carries
/// bytes the pty did not deliver; after a disconnection at most one read's
/// worth of bytes (one buffer, 1024 bytes) goes unforwarded, so the relay
/// stops within one read of losing the consumer.
pub fn run_relay(reader: &mut PtyReader, sink: &mut EventSender)
    ensures
        reader_delivered(*old(reader)).is_prefix_of(reader_delivered(*final(reader))),
        sink_sent(*old(sink)).is_prefix_of(sink_sent(*final(sink))),
        stream_wf(session_events(*old(sink), *final(sink))),
        payload_concat(session_events(*old(sink), *final(sink))).is_prefix_of(
            session_bytes(*old(reader), *final(reader)),
        ),
        session_bytes(*old(reader), *final(reader)).len() <= payload_concat(
            session_events(*old(sink), *final(sink)),
        ).len() + 1024,
        sink_closed(*old(sink)) ==> sink_closed(*final(sink)),
        !sink_closed(*final(sink)) ==> {
            &&& payload_concat(session_events(*old(sink), *final(sink))) == session_bytes(
                *old(reader),
                *final(reader),
            )
            &&& session_events(*old(sink), *final(sink)).len() > 0
            &&& session_events(*old(sink), *final(sink)).last() is Terminated
        },
        !sink_closed(*final(sink)) ==> reader_done(*final(reader)) || session_events(
            *old(sink),
            *final(sink),
        ).len() >= u64::MAX,
{
    let ghost pre_sink: EventSender = *sink;
    let ghost pre_reader: PtyReader = *reader;
    let ghost mut lost: Seq<u8> = Seq::<u8>::empty();
    let mut going = true;
    // The counter only gives the loop a termination measure: at one byte or
    // more per read it outlasts any stream a child process can produce.
    let mut fuel: u64 = u64::MAX;
    while going && fuel > 0
        invariant
            reader_delivered(pre_reader).is_prefix_of(reader_delivered(*reader)),
            sink_sent(pre_sink).is_prefix_of(sink_sent(*sink)),
            all_outputs(session_events(pre_sink, *sink)),
            going ==> payload_concat(session_events(pre_sink, *sink)) == session_bytes(
                pre_reader,
                *reader,
            ),
            !going ==> payload_concat(session_events(pre_sink, *sink)) == session_bytes(
                pre_reader,
                *reader,
            ) || {
                &&& sink_closed(*sink)
                &&& session_bytes(pre_reader, *reader) == payload_concat(
                    session_events(pre_sink, *sink),
                ) + lost
                &&& lost.len() <= 1024
            },
            sink_closed(pre_sink) ==> sink_closed(*sink),
            going ==> session_events(pre_sink, *sink).len() + fuel >= u64::MAX,
            !going ==> reader_done(*reader) || sink_closed(*sink),
        decreases fuel,
    {
        fuel = fuel - 1;
        let ghost sent_before: Seq<ProcessEvent> = sink_sent(*sink);
        let ghost delivered_before: Seq<u8> = reader_delivered(*reader);
        match read_chunk(reader) {
            None => {
                going = false;
            },
            Some(d) => {
                let ghost dd: Seq<u8> = d@;
                proof {
                    lemma_prefix_append(reader_delivered(pre_reader), delivered_before, dd);
                    lemma_skip_append(delivered_before, dd, reader_delivered(pre_reader).len() as int);
                }
                let ev = ProcessEvent::Output(d);
                let ghost gev: ProcessEvent = ev;
                let sent = send_event(sink, ev);
                proof {
                    let k = sink_sent(pre_sink).len() as int;
                    let evs = sent_before.skip(k);
                    if sent is Ok {
                        lemma_prefix_push(sink_sent(pre_sink), sent_before, gev);
                        lemma_skip_push(sent_before, gev, k);
                        lemma_all_outputs_push(evs, gev);
                        lemma_payload_concat_push(evs, gev);
                    } else {
                        lost = dd;
                    }
                }
                if sent.is_err() {
                    going = false;
                }
            },
        }
    }
    let ghost sent_at_exit: Seq<ProcessEvent> = sink_sent(*sink);
    let ghost evs_at_exit: Seq<ProcessEvent> = session_events(pre_sink, *sink);
    let fin = send_event(sink, ProcessEvent::Terminated);
    proof {
        let k = sink_sent(pre_sink).len() as int;
        lemma_outputs_then_terminated_wf(evs_at_exit);
        if fin is Ok {
            lemma_prefix_push(sink_sent(pre_sink), sent_at_exit, ProcessEvent::Terminated);
            lemma_skip_push(sent_at_exit, ProcessEvent::Terminated, k);
            lemma_payload_concat_push(evs_at_exit, ProcessEvent::Terminated);
            assert(payload_concat(evs_at_exit) + Seq::<u8>::empty() =~= payload_concat(
                evs_at_exit,
            ));
        }
        lemma_self_prefix(payload_concat(session_events(pre_sink, *sink)));
        if session_bytes(pre_reader, *reader) != payload_concat(
            session_events(pre_sink, *sink),
        ) {
            lemma_prefix_of_concat(payload_concat(evs_at_exit), lost);
        }
    }
}

/// What construction hands out beside the bridge: the pty's read endpoint
/// and the event sink, the relay's two resources. The host gives these to
/// a task of their own and calls `run`; construction creates exactly one
/// such task per bridge, and the library never hands out the read endpoint
/// again.
pub struct RelayTask {
    pub reader: PtyReader,
    pub sink: EventSender,
}

impl RelayTask {
    /// Runs the output relay to completion, consuming the task: one
    /// bridge, one relay run, one `Terminated` sentinel, enforced by the
    /// type. The returned ghost pair holds the final states of the reader
    /// and the sink, so the session's whole contract — see `run_relay` —
    /// can still be stated once the task is gone.
    pub fn run(self) -> (end: Ghost<(PtyReader, EventSender)>)
        ensures
            reader_delivered(self.reader).is_prefix_of(reader_delivered(end@.0)),
            sink_sent(self.sink).is_prefix_of(sink_sent(end@.1)),
            stream_wf(session_events(self.sink, end@.1)),
            payload_concat(session_events(self.sink, end@.1)).is_prefix_of(
                session_bytes(self.reader, end@.0),
            ),
            session_bytes(self.reader, end@.0).len() <= payload_concat(
                session_events(self.sink, end@.1),
            ).len() + 1024,
            sink_closed(self.sink) ==> sink_closed(end@.1),
            !sink_closed(end@.1) ==> {
                &&& payload_concat(session_events(self.sink, end@.1)) == session_bytes(
                    self.reader,
                    end@.0,
                )
                &&& session_events(self.sink, end@.1).len() > 0
                &&& session_events(self.sink, end@.1).last() is Terminated
            },
            !sink_closed(end@.1) ==> reader_done(end@.0) || session_events(
                self.sink,
                end@.1,
            ).len() >= u64::MAX,
    {
        let RelayTask { mut reader, mut sink } = self;
        run_relay(&mut reader, &mut sink);
        Ghost((reader, sink))
    }
}

} // verus!
