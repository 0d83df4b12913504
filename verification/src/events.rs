//! The event bridge: a process-lifetime broadcast of desktop events.
//! Each caller of `get_event_receiver` gets its own unbounded channel whose
//! sending end the bridge keeps; broadcasting sends the event on every kept
//! sender. The bridge is never torn down, so receivers obtained before a
//! service recreation keep receiving events after it.

use vstd::prelude::*;

use crate::host::{DesktopID, HWND};

verus! {

/// A desktop-change notification delivered on the event channel.
#[derive(Clone, Debug, PartialEq, Eq)]
pub enum DesktopEvent {
    /// The current desktop switched from `old` to `new`.
    DesktopChanged { old: DesktopID, new: DesktopID },
    /// A desktop was renamed.
    DesktopNameChanged(DesktopID, String),
    /// A desktop was created.
    DesktopCreated(DesktopID),
    /// A desktop was destroyed.
    DesktopDestroyed(DesktopID),
    /// A window changed desktops.
    WindowChanged(HWND),
}

#[verifier::external_type_specification]
#[verifier::external_body]
#[verifier::reject_recursive_types(T)]
pub struct ExSender<T>(crossbeam_channel::Sender<T>);

#[verifier::external_type_specification]
#[verifier::external_body]
#[verifier::reject_recursive_types(T)]
pub struct ExReceiver<T>(crossbeam_channel::Receiver<T>);

/// The sending end of one subscriber's queue.
pub type EventSender = crossbeam_channel::Sender<DesktopEvent>;

/// The receiving end of one subscriber's queue: cloneable, iterable, and
/// alive for as long as the caller keeps it.
pub type EventReceiver = crossbeam_channel::Receiver<DesktopEvent>;

/// Relies on crossbeam_channel::unbounded: the returned sender and receiver
/// are the two ends of one unbounded FIFO queue; every value sent on the
/// sender is observed, in order, by the receiver.
#[verifier::external_body]
fn channel_new() -> (r: (EventSender, EventReceiver)) {
    crossbeam_channel::unbounded()
}

/// Relies on crossbeam_channel::Sender::send: on an unbounded channel the
/// value is enqueued for its receiver. Sending only errs when every
/// receiver was dropped; delivery is deliberately best-effort, so that
/// outcome is ignored.
#[verifier::external_body]
fn channel_send(s: &EventSender, e: &DesktopEvent) {
    let _ = s.send(e.clone());
}

/// The broadcast bridge. `history` records every event broadcast so far;
/// `joins` records, for each kept sender, how long the history was when its
/// receiver was handed out: subscriber `k` observes `history@.skip(joins@[k])`.
pub struct EventBridge {
    pub senders: Vec<EventSender>,
    pub history: Ghost<Seq<DesktopEvent>>,
    pub joins: Ghost<Seq<int>>,
}

impl EventBridge {
    /// What subscriber `k` observes: every event broadcast since it joined.
    pub open spec fn observed(self, k: int) -> Seq<DesktopEvent> {
        self.history@.skip(self.joins@[k])
    }

    pub open spec fn wf(self) -> bool {
        &&& self.joins@.len() == self.senders@.len()
        &&& forall|k: int| 0 <= k < self.joins@.len() ==> 0 <= #[trigger] self.joins@[k]
            <= self.history@.len()
    }

    /// A bridge with no subscribers and an empty history.
    pub fn new() -> (b: EventBridge)
        ensures
            b.wf(),
            b.senders@.len() == 0,
            b.history@ == Seq::<DesktopEvent>::empty(),
    {
        EventBridge { senders: Vec::new(), history: Ghost(Seq::empty()), joins: Ghost(Seq::empty()) }
    }

    /// Hand out a fresh receiving end and keep its sender: everything
    /// broadcast from now on is observed by it.
    pub fn subscribe(&mut self) -> (r: EventReceiver)
        requires
            old(self).wf(),
        ensures
            final(self).wf(),
            final(self).history@ == old(self).history@,
            final(self).senders@.len() == old(self).senders@.len() + 1,
            final(self).joins@ == old(self).joins@.push(old(self).history@.len() as int),
    {
        let (s, r) = channel_new();
        self.senders.push(s);
        proof {
            self.joins@ = self.joins@.push(self.history@.len() as int);
        }
        r
    }

    /// Send the event on every kept sender and record it in the history.
    pub fn broadcast(&mut self, e: &DesktopEvent)
        requires
            old(self).wf(),
        ensures
            final(self).wf(),
            final(self).history@ == old(self).history@.push(*e),
            final(self).joins@ == old(self).joins@,
            final(self).senders@ == old(self).senders@,
    {
        let mut i: usize = 0;
        while i < self.senders.len()
            invariant
                self.wf(),
                *self == *old(self),
            decreases self.senders@.len() - i,
        {
            channel_send(&self.senders[i], e);
            i += 1;
        }
        proof {
            self.history@ = self.history@.push(*e);
        }
    }
}

/// Broadcast reaches every subscriber: whoever subscribed before an event
/// was broadcast observes that event. In particular, after a second call to
/// `subscribe`, both of the last two receivers observe every later event.
pub proof fn lemma_broadcast_observed_by_all(
    pre: EventBridge,
    post: EventBridge,
    e: DesktopEvent,
    k: int,
)
    requires
        pre.wf(),
        0 <= k < pre.joins@.len(),
        post.history@ == pre.history@.push(e),
        post.joins@ == pre.joins@,
    ensures
        post.observed(k).contains(e),
{
    let j = pre.joins@[k];
    let n = pre.history@.len() as int;
    assert(post.observed(k) == post.history@.skip(j));
    assert(post.history@.skip(j)[n - j] == post.history@[n]);
    assert(post.history@[n] == e);
}

} // verus!
