use vstd::prelude::*;

use crate::errors::BridgeError;
use crate::events::ProcessEvent;

verus! {

/// The consumer's end of the event channel: `std::sync::mpsc::Receiver`,
/// carried opaquely so that constructors can hand it out.
#[verifier::external_type_specification]
#[verifier::external_body]
#[verifier::reject_recursive_types(T)]
pub struct ExReceiver<T>(std::sync::mpsc::Receiver<T>);

/// The sending end of the event channel toward the consumer. The channel
/// is ordered: events arrive in the order they were accepted here.
#[verifier::external_body]
pub struct EventSender {
    inner: std::sync::mpsc::Sender<ProcessEvent>,
}

/// The events this sender handle has accepted so far, oldest first.
pub uninterp spec fn sink_sent(s: EventSender) -> Seq<ProcessEvent>;

/// Whether this sender handle has observed the consumer's disconnection.
/// Disconnection is permanent: once a send has failed, every later send
/// fails too.
pub uninterp spec fn sink_closed(s: EventSender) -> bool;

/// Relies on `std::sync::mpsc::channel`: a fresh ordered channel whose
/// sending end has accepted nothing and whose receiver is alive.
#[verifier::external_body]
pub(crate) fn event_channel() -> (r: (EventSender, std::sync::mpsc::Receiver<ProcessEvent>))
    ensures
        sink_sent(r.0) == Seq::<ProcessEvent>::empty(),
        !sink_closed(r.0),
{
    let (tx, rx) = std::sync::mpsc::channel();
    (EventSender { inner: tx }, rx)
}

/// Relies on `std::sync::mpsc::Sender::send`: a send fails exactly when the
/// receiver has been dropped, in which case the event is not delivered; the
/// receiver can never come back, so failure is permanent. A successful send
/// appends the event to what the consumer will observe, in order.
#[verifier::external_body]
pub(crate) fn send_event(s: &mut EventSender, ev: ProcessEvent) -> (r: Result<(), BridgeError>)
    ensures
        r matches Ok(u) ==> {
            &&& sink_sent(*final(s)) == sink_sent(*old(s)).push(ev)
            &&& !sink_closed(*old(s))
            &&& !sink_closed(*final(s))
        },
        r matches Err(e) ==> {
            &&& e == BridgeError::SinkDisconnected
            &&& sink_sent(*final(s)) == sink_sent(*old(s))
            &&& sink_closed(*final(s))
        },
        sink_closed(*old(s)) ==> r is Err,
{
    match s.inner.send(ev) {
        Ok(()) => Ok(()),
        Err(_) => Err(BridgeError::SinkDisconnected),
    }
}

} // verus!
