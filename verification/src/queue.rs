//! The handoff queue: a bounded, ordered buffer of envelopes that decouples
//! the call-handling path from the consumer. Capacity exhaustion always
//! shows as the producer having to wait, never as loss; envelopes leave in
//! the order their pushes committed.

use vstd::prelude::*;
use std::collections::VecDeque;
use crate::correlator::{CorrelatorV, ReplyCorrelator};
use crate::record::{SensorData, SensorDataV};

verus! {

/// Mathematical view of an envelope.
pub ghost struct ServerSensorChannelV {
    pub data: SensorDataV,
    pub tx: CorrelatorV,
}

/// An envelope: one request's record paired with its reply correlator, as
/// it travels from the call handler through the queue to the consumer. The
/// consumer must eventually consume the correlator's sending half.
pub struct ServerSensorChannel {
    pub data: SensorData,
    pub tx: ReplyCorrelator,
}

impl View for ServerSensorChannel {
    type V = ServerSensorChannelV;

    open spec fn view(&self) -> ServerSensorChannelV {
        ServerSensorChannelV { data: self.data@, tx: self.tx@ }
    }
}

/// What a push returns: the envelope was appended, or the queue was at
/// capacity and the envelope comes back untouched — the producer must wait
/// for the consumer to pop and then try again. Nothing is ever dropped.
pub enum PushOutcome {
    Enqueued,
    Full(ServerSensorChannel),
}

/// A bounded FIFO of envelopes with its capacity fixed at construction.
pub struct HandoffQueue {
    items: VecDeque<ServerSensorChannel>,
    capacity: usize,
}

impl View for HandoffQueue {
    type V = Seq<ServerSensorChannelV>;

    closed spec fn view(&self) -> Seq<ServerSensorChannelV> {
        Seq::new(self.items@.len(), |i: int| self.items@[i]@)
    }
}

impl HandoffQueue {
    /// The capacity the queue was built with.
    pub closed spec fn cap(&self) -> nat {
        self.capacity as nat
    }

    /// The queue never holds more than its capacity, and the capacity is a
    /// positive integer chosen at construction.
    pub open spec fn wf(&self) -> bool {
        &&& self@.len() <= self.cap()
        &&& 1 <= self.cap()
    }

    /// Creates an empty queue with the given capacity.
    pub fn new(buffer_size: usize) -> (q: HandoffQueue)
        requires
            1 <= buffer_size,
        ensures
            q.wf(),
            q@ == Seq::<ServerSensorChannelV>::empty(),
            q.cap() == buffer_size,
    {
        let q = HandoffQueue { items: VecDeque::new(), capacity: buffer_size };
        proof {
            assert(q@ =~= Seq::<ServerSensorChannelV>::empty());
        }
        q
    }

    /// How many envelopes the queue holds.
    pub fn len(&self) -> (n: usize)
        ensures
            n == self@.len(),
    {
        self.items.len()
    }

    /// The capacity the queue was built with.
    pub fn capacity(&self) -> (n: usize)
        ensures
            n == self.cap(),
    {
        self.capacity
    }

    /// Appends the envelope, preserving commit order among all producers.
    /// While the queue is full the push does not complete: the envelope is
    /// handed back in `Full`, the queue is unchanged, and the producer waits
    /// until the consumer has popped — backpressure, never loss.
    pub fn push(&mut self, envelope: ServerSensorChannel) -> (r: PushOutcome)
        requires
            old(self).wf(),
        ensures
            final(self).wf(),
            final(self).cap() == old(self).cap(),
            old(self)@.len() < old(self).cap() ==> (r is Enqueued && final(self)@
                == old(self)@.push(envelope@)),
            old(self)@.len() >= old(self).cap() ==> (r matches PushOutcome::Full(e) && e@
                == envelope@ && final(self)@ == old(self)@),
    {
        if self.items.len() < self.capacity {
            let ghost before = self@;
            self.items.push_back(envelope);
            proof {
                assert(self@ =~= before.push(envelope@));
            }
            PushOutcome::Enqueued
        } else {
            PushOutcome::Full(envelope)
        }
    }

    /// Removes and returns the oldest envelope; `None` when the queue is
    /// empty (the consumer then waits for a producer). Envelopes come out in
    /// exactly the order their pushes committed.
    pub fn pop(&mut self) -> (r: Option<ServerSensorChannel>)
        requires
            old(self).wf(),
        ensures
            final(self).wf(),
            final(self).cap() == old(self).cap(),
            old(self)@.len() == 0 ==> (r is None && final(self)@ == old(self)@),
            old(self)@.len() > 0 ==> (r matches Some(e) && e@ == old(self)@[0] && final(self)@
                == old(self)@.skip(1)),
    {
        let ghost before = self@;
        let popped = self.items.pop_front();
        match popped {
            Some(envelope) => {
                proof {
                    assert(self@ =~= before.skip(1));
                }
                Some(envelope)
            },
            None => {
                proof {
                    assert(self@ =~= before);
                }
                None
            },
        }
    }
}

/// The queue's contents after `k` pops, starting from contents `s`.
pub open spec fn after_pops(s: Seq<ServerSensorChannelV>, k: int) -> Seq<ServerSensorChannelV> {
    s.skip(k)
}

/// FIFO law: starting from contents `s` (the envelopes in the order their
/// pushes committed), the queue before the `k`-th pop still holds the
/// remaining envelopes in that order, so the `k`-th pop returns `s[k]`:
/// envelopes leave the queue exactly in commit order.
pub proof fn lemma_fifo(s: Seq<ServerSensorChannelV>, k: int)
    requires
        0 <= k < s.len(),
    ensures
        after_pops(s, k).len() == s.len() - k,
        after_pops(s, k)[0] == s[k],
        after_pops(s, k).skip(1) == after_pops(s, k + 1),
{
    assert(after_pops(s, k).skip(1) =~= after_pops(s, k + 1));
}

/// Sequence markers strictly increase along the contents.
pub open spec fn markers_increasing(s: Seq<ServerSensorChannelV>) -> bool {
    forall|i: int, j: int| 0 <= i < j < s.len() ==> s[i].data.timestamp < s[j].data.timestamp
}

/// FIFO corollary: when a single producer pushes envelopes carrying strictly
/// increasing sequence markers, the consumer pops them with markers in the
/// same strictly increasing order.
pub proof fn lemma_fifo_markers(s: Seq<ServerSensorChannelV>, j: int, k: int)
    requires
        markers_increasing(s),
        0 <= j < k < s.len(),
    ensures
        after_pops(s, j)[0].data.timestamp < after_pops(s, k)[0].data.timestamp,
{
}

} // verus!
