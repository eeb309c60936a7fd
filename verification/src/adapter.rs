//! The adapter service: the request-handling entry point. Handling one
//! inbound call has three steps around the two suspension points — build
//! the envelope with a fresh correlator, push it onto the handoff queue
//! (waiting while full), and, once the correlator has resolved, map its
//! outcome to the outbound wire reply or to `Cancelled`.

use vstd::prelude::*;
use crate::correlator::{AdapterError, CorrelatorV, ReplyCorrelator, ReplyState};
use crate::queue::{HandoffQueue, ServerSensorChannel, ServerSensorChannelV};
use crate::record::SensorReplyV;
use crate::wire::{
    data_of_wire, reply_of_wire, sensor_data_from_wire, reply_to_wire, wire_of_reply,
    SensorAdapterReply, SensorAdapterReplyV, SensorDataRequest, SensorDataRequestV,
};

verus! {

/// The service handling the remote calls. It owns the handoff queue that
/// decouples its call handlers from the consumer; the queue is injected
/// here at construction and is the only shared structure between calls.
pub struct SensorAdapterService {
    pub tx: HandoffQueue,
}

impl SensorAdapterService {
    /// Builds the service around an empty handoff queue of the given
    /// capacity (a positive integer chosen by the operator).
    pub fn new(buffer_size: usize) -> (s: SensorAdapterService)
        requires
            1 <= buffer_size,
        ensures
            s.tx.wf(),
            s.tx@ == Seq::<ServerSensorChannelV>::empty(),
            s.tx.cap() == buffer_size,
    {
        SensorAdapterService { tx: HandoffQueue::new(buffer_size) }
    }
}

/// What the handler builds for one inbound call: the record translated off
/// the wire, paired with a fresh, unresolved correlator.
pub open spec fn begin_call_spec(request: SensorDataRequestV) -> ServerSensorChannelV {
    ServerSensorChannelV { data: data_of_wire(request), tx: CorrelatorV::fresh() }
}

/// How the handler's wait resumes once the correlator has left the
/// unresolved state: the consumer's reply marshalled onto the wire, or a
/// cancellation where the consumer discarded its obligation unanswered.
pub open spec fn finish_call_spec(c: CorrelatorV) -> Result<SensorAdapterReplyV, AdapterError> {
    match c.state {
        ReplyState::Resolved(v) => Ok(wire_of_reply(v)),
        _ => Err(AdapterError::Cancelled),
    }
}

/// First step of handling one inbound call: translate the wire request to
/// the domain record and pair it with a fresh reply correlator. The
/// envelope then goes onto the handoff queue.
pub fn begin_call(request: SensorDataRequest) -> (env: ServerSensorChannel)
    ensures
        env@ == begin_call_spec(request@),
{
    ServerSensorChannel { data: sensor_data_from_wire(request), tx: ReplyCorrelator::new() }
}

/// Last step of handling: resume on the resolved correlator and map its
/// outcome — the consumer's reply goes out on the wire, a discarded
/// obligation becomes `Cancelled`. The call never hangs and never faults.
pub fn finish_call(rx: ReplyCorrelator) -> (r: Result<SensorAdapterReply, AdapterError>)
    requires
        !(rx@.state is Pending),
        rx@.receiver_live,
    ensures
        finish_call_spec(rx@) matches Ok(w) ==> (r matches Ok(rep) && rep@ == w),
        finish_call_spec(rx@) matches Err(e) ==> (r matches Err(got) && got == e),
{
    match rx.receive() {
        Ok(reply) => Ok(reply_to_wire(reply)),
        Err(e) => Err(e),
    }
}

/// Law: for every request and every reply, a call whose consumer answers
/// with `reply` returns exactly that reply, field for field. The envelope
/// starts with a fresh correlator, so the consumer's send is the one that
/// resolves it; the resumed handler then returns the reply in wire form,
/// and translating that wire form back yields `reply` unchanged. Nothing
/// here reads the timestamp's value, so it holds at the boundary values of
/// the integer as well.
pub proof fn lemma_handle_returns_consumer_reply(
    request: SensorDataRequestV,
    reply: SensorReplyV,
)
    ensures
        begin_call_spec(request).data == data_of_wire(request),
        begin_call_spec(request).tx.can_send(),
        finish_call_spec(begin_call_spec(request).tx.after_send(reply)) == Ok::<
            SensorAdapterReplyV,
            AdapterError,
        >(wire_of_reply(reply)),
        reply_of_wire(wire_of_reply(reply)) == reply,
{
}

/// Law: a consumer that pops an envelope and discards its sending half
/// without replying cancels the correlator — the state leaves `Pending`, so
/// the waiting call resumes, and it ends with `Cancelled` rather than a
/// hang or a fault.
pub proof fn lemma_dropped_sender_cancels_call(c: CorrelatorV)
    requires
        c.state is Pending,
        c.sender_live,
    ensures
        !(c.after_sender_dropped().state is Pending),
        finish_call_spec(c.after_sender_dropped()) == Err::<
            SensorAdapterReplyV,
            AdapterError,
        >(AdapterError::Cancelled),
{
}

} // verus!
