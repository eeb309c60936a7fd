//! The reply correlator: a single-use signaling channel created per inbound
//! request. Exactly one reply may be delivered through it, and the waiting
//! side can always detect that no reply will ever come.

use vstd::prelude::*;
use crate::record::{SensorReply, SensorReplyV};

verus! {

/// Why a handled call fails: the consumer discarded its reply obligation
/// without answering. Transport-level failures never reach this core; they
/// are propagated verbatim by the surrounding plumbing.
#[derive(Debug, Clone, Copy, PartialEq, Eq, Structural)]
pub enum AdapterError {
    Cancelled,
}

/// The resolution state of a reply correlator: at most one value is ever
/// sent on it, and a sending half discarded unused is a terminal
/// cancellation, never a hang.
pub ghost enum ReplyState {
    Pending,
    Resolved(SensorReplyV),
    Cancelled,
}

/// Mathematical view of a reply correlator: its resolution state and
/// whether each half is still held.
pub ghost struct CorrelatorV {
    pub state: ReplyState,
    pub sender_live: bool,
    pub receiver_live: bool,
}

impl CorrelatorV {
    /// A correlator as `new` returns it: unresolved, both halves held.
    pub open spec fn fresh() -> CorrelatorV {
        CorrelatorV { state: ReplyState::Pending, sender_live: true, receiver_live: true }
    }

    /// A send can deliver its value only while the correlator is unresolved,
    /// the sending half has not been used up, and the receiving half exists.
    pub open spec fn can_send(self) -> bool {
        &&& self.state is Pending
        &&& self.sender_live
        &&& self.receiver_live
    }

    /// The correlator after an attempt to send `v`. The attempt always uses
    /// the sending half up; it resolves the correlator exactly where
    /// `can_send` held, and changes nothing else otherwise.
    pub open spec fn after_send(self, v: SensorReplyV) -> CorrelatorV {
        if self.can_send() {
            CorrelatorV { state: ReplyState::Resolved(v), sender_live: false, ..self }
        } else {
            CorrelatorV { sender_live: false, ..self }
        }
    }

    /// The correlator after its sending half is discarded unused: an
    /// unresolved correlator becomes cancelled, so the waiting side is
    /// released rather than left to hang.
    pub open spec fn after_sender_dropped(self) -> CorrelatorV {
        if self.sender_live && self.state is Pending {
            CorrelatorV { state: ReplyState::Cancelled, sender_live: false, ..self }
        } else {
            CorrelatorV { sender_live: false, ..self }
        }
    }

    /// The correlator after its receiving half is discarded: later sends
    /// can no longer deliver.
    pub open spec fn after_receiver_dropped(self) -> CorrelatorV {
        CorrelatorV { receiver_live: false, ..self }
    }
}

enum Slot {
    Pending,
    Resolved(SensorReply),
    Cancelled,
}

/// A single-use, per-request reply channel, held as an explicit sum of its
/// states. It correlates the consumer's one reply back to the specific
/// waiting call; no correlator is ever shared or reused across requests.
pub struct ReplyCorrelator {
    slot: Slot,
    sender_live: bool,
    receiver_live: bool,
}

impl View for ReplyCorrelator {
    type V = CorrelatorV;

    closed spec fn view(&self) -> CorrelatorV {
        CorrelatorV {
            state: match self.slot {
                Slot::Pending => ReplyState::Pending,
                Slot::Resolved(rep) => ReplyState::Resolved(rep@),
                Slot::Cancelled => ReplyState::Cancelled,
            },
            sender_live: self.sender_live,
            receiver_live: self.receiver_live,
        }
    }
}

impl ReplyCorrelator {
    /// Creates the correlator for one inbound call: unresolved, with both
    /// halves available.
    pub fn new() -> (c: ReplyCorrelator)
        ensures
            c@ == CorrelatorV::fresh(),
    {
        ReplyCorrelator { slot: Slot::Pending, sender_live: true, receiver_live: true }
    }

    /// Whether the correlator is still unresolved.
    pub fn is_pending(&self) -> (r: bool)
        ensures
            r == (self@.state is Pending),
    {
        match &self.slot {
            Slot::Pending => true,
            _ => false,
        }
    }

    /// Delivers the consumer's reply. Exactly one send can succeed; a send
    /// after the correlator is already resolved or cancelled, or after the
    /// receiving half is gone, hands the value back in `Err` and never
    /// faults.
    pub fn send(&mut self, reply: SensorReply) -> (r: Result<(), SensorReply>)
        ensures
            final(self)@ == old(self)@.after_send(reply@),
            old(self)@.can_send() ==> r is Ok,
            !old(self)@.can_send() ==> (r matches Err(v) && v@ == reply@),
    {
        let deliverable = self.sender_live && self.receiver_live && self.is_pending();
        self.sender_live = false;
        if deliverable {
            self.slot = Slot::Resolved(reply);
            Ok(())
        } else {
            Err(reply)
        }
    }

    /// The consumer discards its sending half without replying: an
    /// unresolved correlator becomes cancelled, so the waiting call will be
    /// released with a cancellation instead of hanging.
    pub fn drop_sender(&mut self)
        ensures
            final(self)@ == old(self)@.after_sender_dropped(),
    {
        if self.sender_live && self.is_pending() {
            self.slot = Slot::Cancelled;
        }
        self.sender_live = false;
    }

    /// The waiting side goes away: later sends fail rather than fault.
    pub fn drop_receiver(&mut self)
        ensures
            final(self)@ == old(self)@.after_receiver_dropped(),
    {
        self.receiver_live = false;
    }

    /// Resumes the waiting call once the correlator has left the unresolved
    /// state: the delivered reply, or `Cancelled` where the sending half was
    /// discarded unused. The runtime suspends the waiter while the
    /// correlator is unresolved, so resumption starts from a resolved or
    /// cancelled correlator.
    pub fn receive(self) -> (r: Result<SensorReply, AdapterError>)
        requires
            !(self@.state is Pending),
            self@.receiver_live,
        ensures
            self@.state matches ReplyState::Resolved(v) ==> (r matches Ok(rep) && rep@ == v),
            self@.state is Cancelled ==> r == Err::<SensorReply, AdapterError>(AdapterError::Cancelled),
    {
        match self.slot {
            Slot::Resolved(rep) => Ok(rep),
            _ => Err(AdapterError::Cancelled),
        }
    }
}

} // verus!
