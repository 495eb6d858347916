use vstd::prelude::*;

verus! {

/// One event delivered from the output relay to the consumer.
///
/// `Output` carries a non-empty chunk of raw bytes read from the child's
/// terminal; chunk boundaries carry no meaning. `Terminated` is the sentinel
/// that the relay sends exactly once, after every `Output` it produced.
#[derive(Clone)]
pub enum ProcessEvent {
    Output(Vec<u8>),
    Terminated,
}

/// The bytes an event carries: an `Output` payload, nothing for `Terminated`.
pub open spec fn event_bytes(ev: ProcessEvent) -> Seq<u8> {
    match ev {
        ProcessEvent::Output(d) => d@,
        ProcessEvent::Terminated => Seq::empty(),
    }
}

/// The concatenation of all payloads in a sequence of events, in order.
pub open spec fn payload_concat(evs: Seq<ProcessEvent>) -> Seq<u8>
    decreases evs.len(),
{
    if evs.len() == 0 {
        Seq::empty()
    } else {
        event_bytes(evs[0]) + payload_concat(evs.skip(1))
    }
}

/// A well-formed event stream as the relay emits it: every `Output` payload
/// is non-empty, and `Terminated` occurs only as the very last event.
pub open spec fn stream_wf(evs: Seq<ProcessEvent>) -> bool {
    forall|i: int|
        0 <= i < evs.len() ==> match #[trigger] evs[i] {
            ProcessEvent::Output(d) => d@.len() > 0,
            ProcessEvent::Terminated => i == evs.len() - 1,
        }
}

/// A stream of output alone: every event is an `Output` with a non-empty
/// payload. This is the shape of the relay's stream before the sentinel.
pub open spec fn all_outputs(evs: Seq<ProcessEvent>) -> bool {
    forall|i: int|
        0 <= i < evs.len() ==> match #[trigger] evs[i] {
            ProcessEvent::Output(d) => d@.len() > 0,
            ProcessEvent::Terminated => false,
        }
}

/// Appending one event adds exactly that event's bytes to the stream's
/// concatenated payload.
pub proof fn lemma_payload_concat_push(evs: Seq<ProcessEvent>, ev: ProcessEvent)
    ensures
        payload_concat(evs.push(ev)) == payload_concat(evs) + event_bytes(ev),
    decreases evs.len(),
{
    if evs.len() == 0 {
        assert(evs.push(ev).len() == 1);
        assert(evs.push(ev)[0] == ev);
        assert(evs.push(ev).skip(1) =~= Seq::<ProcessEvent>::empty());
        assert(payload_concat(evs.push(ev).skip(1)) == Seq::<u8>::empty());
        assert(payload_concat(evs.push(ev)) == event_bytes(ev) + Seq::<u8>::empty());
        assert(event_bytes(ev) + Seq::<u8>::empty() =~= Seq::<u8>::empty() + event_bytes(ev));
    } else {
        lemma_payload_concat_push(evs.skip(1), ev);
        assert(evs.push(ev).skip(1) =~= evs.skip(1).push(ev));
        assert(evs.push(ev)[0] == evs[0]);
        assert((event_bytes(evs[0]) + payload_concat(evs.skip(1))) + event_bytes(ev) =~= event_bytes(
            evs[0],
        ) + (payload_concat(evs.skip(1)) + event_bytes(ev)));
    }
}

/// A stream of output alone stays one when a further non-empty `Output` is
/// appended.
pub proof fn lemma_all_outputs_push(evs: Seq<ProcessEvent>, ev: ProcessEvent)
    requires
        all_outputs(evs),
        ev is Output,
        event_bytes(ev).len() > 0,
    ensures
        all_outputs(evs.push(ev)),
{
    assert forall|i: int| 0 <= i < evs.push(ev).len() implies match #[trigger] evs.push(ev)[i] {
        ProcessEvent::Output(d) => d@.len() > 0,
        ProcessEvent::Terminated => false,
    } by {
        if i < evs.len() {
            assert(evs.push(ev)[i] == evs[i]);
        } else {
            assert(evs.push(ev)[i] == ev);
        }
    }
}

/// A stream of output alone is well formed, and stays well formed when the
/// `Terminated` sentinel is appended at its end.
pub proof fn lemma_outputs_then_terminated_wf(evs: Seq<ProcessEvent>)
    requires
        all_outputs(evs),
    ensures
        stream_wf(evs),
        stream_wf(evs.push(ProcessEvent::Terminated)),
{
    let with_term = evs.push(ProcessEvent::Terminated);
    assert forall|i: int| 0 <= i < with_term.len() implies match #[trigger] with_term[i] {
        ProcessEvent::Output(d) => d@.len() > 0,
        ProcessEvent::Terminated => i == with_term.len() - 1,
    } by {
        if i < evs.len() {
            assert(with_term[i] == evs[i]);
        } else {
            assert(with_term[i] == ProcessEvent::Terminated);
        }
    }
}

/// In a well-formed stream that ends in `Terminated`, the sentinel is
/// unique — no other position holds it — and everything before it is
/// output. This is the shape every complete relay session has.
pub proof fn lemma_terminated_unique_and_last(evs: Seq<ProcessEvent>)
    requires
        stream_wf(evs),
        evs.len() > 0,
        evs.last() is Terminated,
    ensures
        forall|i: int| 0 <= i < evs.len() - 1 ==> #[trigger] evs[i] is Output,
        forall|i: int| 0 <= i < evs.len() && #[trigger] evs[i] is Terminated ==> i == evs.len()
            - 1,
{
}

} // verus!
