//! Decisions of the loop that carries hotkey notifications from the
//! registry's blocking receiver into the application's message queue. The
//! loop itself (the blocking receive and the send) is run by the caller,
//! which reports each outcome here and performs the returned action.

use vstd::prelude::*;
use crate::controller::Notification;

verus! {

/// Where the loop stands.
#[derive(Debug, Clone, Copy, PartialEq, Eq, Structural)]
pub enum BridgePhase {
    /// Waiting on the registry's receiver.
    Receiving,
    /// Handing this notification to the message queue.
    Forwarding(Notification),
    /// The loop has ended.
    Stopped,
}

/// What the caller does next.
#[derive(Debug, Clone, Copy, PartialEq, Eq, Structural)]
pub enum BridgeAction {
    /// Perform one blocking receive.
    Receive,
    /// Send this notification into the message queue.
    Forward(Notification),
    /// Leave the loop.
    Stop,
}

/// The loop's state, with a record of what it received and forwarded.
pub struct Bridge {
    phase: BridgePhase,
    received: Ghost<Seq<Notification>>,
    forwarded: Ghost<Seq<Notification>>,
}

impl Bridge {
    pub closed spec fn phase(&self) -> BridgePhase {
        self.phase
    }

    /// Every notification received so far, in order.
    pub closed spec fn received(&self) -> Seq<Notification> {
        self.received@
    }

    /// Every notification handed to the message queue so far, in order.
    pub closed spec fn forwarded(&self) -> Seq<Notification> {
        self.forwarded@
    }

    /// Well-formedness: what was forwarded is exactly what was received, in
    /// the same order, except for the one notification in hand while
    /// forwarding, or the one whose send failed when the loop stopped.
    pub open spec fn wf(&self) -> bool {
        match self.phase() {
            BridgePhase::Receiving => self.forwarded() == self.received(),
            BridgePhase::Forwarding(n) => self.received() == self.forwarded().push(n),
            BridgePhase::Stopped => self.forwarded() == self.received() || (
            self.received().len() > 0 && self.forwarded() == self.received().drop_last()),
        }
    }

    /// A loop about to perform its first receive.
    pub fn new() -> (r: Bridge)
        ensures
            r.wf(),
            r.phase() == BridgePhase::Receiving,
            r.received() == Seq::<Notification>::empty(),
            r.forwarded() == Seq::<Notification>::empty(),
    {
        Bridge { phase: BridgePhase::Receiving, received: Ghost(Seq::empty()), forwarded: Ghost(Seq::empty()) }
    }

    /// Whether the loop waits on a receive.
    pub fn is_receiving(&self) -> (r: bool)
        ensures
            r == (self.phase() == BridgePhase::Receiving),
    {
        match self.phase {
            BridgePhase::Receiving => true,
            _ => false,
        }
    }

    /// Whether the loop waits on a send.
    pub fn is_forwarding(&self) -> (r: bool)
        ensures
            r == (self.phase() is Forwarding),
    {
        match self.phase {
            BridgePhase::Forwarding(_) => true,
            _ => false,
        }
    }

    /// Reports the outcome of a receive: a notification, or `None` when the
    /// receiver is closed. A notification is forwarded next; a closed
    /// receiver ends the loop.
    pub fn on_received(&mut self, r: Option<Notification>) -> (a: BridgeAction)
        requires
            old(self).wf(),
            old(self).phase() == BridgePhase::Receiving,
        ensures
            final(self).wf(),
            final(self).forwarded() == old(self).forwarded(),
            match r {
                Some(n) => {
                    &&& a == BridgeAction::Forward(n)
                    &&& final(self).phase() == BridgePhase::Forwarding(n)
                    &&& final(self).received() == old(self).received().push(n)
                },
                None => {
                    &&& a == BridgeAction::Stop
                    &&& final(self).phase() == BridgePhase::Stopped
                    &&& final(self).received() == old(self).received()
                },
            },
    {
        match r {
            Some(n) => {
                self.phase = BridgePhase::Forwarding(n);
                self.received = Ghost(self.received@.push(n));
                BridgeAction::Forward(n)
            },
            None => {
                self.phase = BridgePhase::Stopped;
                BridgeAction::Stop
            },
        }
    }

    /// Reports whether the send of the notification in hand succeeded. After
    /// a success the loop receives again; a failed send ends it.
    pub fn on_sent(&mut self, ok: bool) -> (a: BridgeAction)
        requires
            old(self).wf(),
            old(self).phase() is Forwarding,
        ensures
            final(self).wf(),
            final(self).received() == old(self).received(),
            ok ==> a == BridgeAction::Receive,
            ok ==> final(self).phase() == BridgePhase::Receiving,
            ok ==> final(self).forwarded() == old(self).forwarded().push(
                old(self).phase()->Forwarding_0,
            ),
            !ok ==> a == BridgeAction::Stop,
            !ok ==> final(self).phase() == BridgePhase::Stopped,
            !ok ==> final(self).forwarded() == old(self).forwarded(),
    {
        if let BridgePhase::Forwarding(n) = self.phase {
            if ok {
                self.phase = BridgePhase::Receiving;
                self.forwarded = Ghost(self.forwarded@.push(n));
                BridgeAction::Receive
            } else {
                self.phase = BridgePhase::Stopped;
                proof {
                    assert(self.received@.drop_last() =~= self.forwarded@);
                }
                BridgeAction::Stop
            }
        } else {
            BridgeAction::Stop
        }
    }
}

/// The loop neither drops nor reorders: what it has forwarded is always a
/// prefix of what it has received, and all of it whenever it is back to
/// receiving.
pub proof fn lemma_forwarded_in_order(b: &Bridge)
    requires
        b.wf(),
    ensures
        b.forwarded().len() <= b.received().len(),
        forall|i: int| 0 <= i < b.forwarded().len() ==> b.forwarded()[i] == #[trigger] b.received()[i],
        b.phase() == BridgePhase::Receiving ==> b.forwarded() == b.received(),
{
}

} // verus!
