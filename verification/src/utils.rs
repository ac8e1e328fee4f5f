//! The asynchronous result slot: a single-producer, single-consumer mailbox of
//! capacity one between a non-blocking polling loop and a background task.
//!
//! `Arx` owns at most one delivery channel. Dispatching (`task`) replaces the
//! tracked channel with a fresh one, so a late delivery on an orphaned channel
//! is never observed. Polling is non-blocking and drains at most one value.

use vstd::prelude::*;
use std::sync::Arc;
use concurrent_queue::ConcurrentQueue;

verus! {

#[verifier::external_type_specification]
#[verifier::external_body]
#[verifier::reject_recursive_types(T)]
pub struct ExConcurrentQueue<T>(ConcurrentQueue<T>);

/// Relies on `ConcurrentQueue::bounded`: returns a fresh queue with room for
/// exactly one item. It panics only when asked for capacity zero, and this
/// always asks for one.
#[verifier::external_body]
fn bounded_one<T>() -> ConcurrentQueue<T> {
    ConcurrentQueue::bounded(1)
}

/// Relies on `ConcurrentQueue::force_push`: on a capacity-one queue the pushed
/// value displaces any value already held, without blocking; the displaced
/// value and any close error are discarded here. Nothing is promised of the
/// queue's contents: another thread may drain it at any time.
#[verifier::external_body]
fn force_push_one<T>(que: &ConcurrentQueue<T>, val: T) {
    let _ = que.force_push(val);
}

/// Relies on `ConcurrentQueue::pop`: returns a held item, or nothing when the
/// queue is empty or closed, without blocking. Which holds depends on what
/// other threads delivered, so nothing is promised of the outcome.
#[verifier::external_body]
fn pop_one<T>(que: &ConcurrentQueue<T>) -> Option<T> {
    que.pop().ok()
}

/// Relies on `Arc::clone`: returns another handle to the same queue.
#[verifier::external_body]
fn share<T>(que: &Arc<ConcurrentQueue<T>>) -> Arc<ConcurrentQueue<T>> {
    Arc::clone(que)
}

/// The outcome of one non-blocking poll of an `Arx`.
pub enum Poll<T> {
    /// No operation is in flight: the slot is idle.
    NotInFlight,
    /// An operation is in flight and has not delivered yet.
    StillPending,
    /// The in-flight operation delivered this value; the slot is idle again.
    Delivered(T),
}

/// The write capability handed to a background task: it delivers at most one
/// observable value into the channel the slot tracked when it was dispatched.
#[verifier::reject_recursive_types(T)]
pub struct ArxSender<T> {
    que: Arc<ConcurrentQueue<T>>,
}

impl<T> ArxSender<T> {
    /// Deliver a value. Consuming `self` makes a second delivery on the same
    /// handle impossible; a delivery on a handle whose channel the slot has
    /// since replaced is silently discarded.
    pub fn send(self, val: T) {
        force_push_one(&self.que, val);
    }
}

/// The single-outstanding-operation mailbox: `Idle` when it tracks no channel,
/// `Pending` while it tracks one whose value has not been drained.
#[verifier::reject_recursive_types(T)]
pub struct Arx<T> {
    que: Option<Arc<ConcurrentQueue<T>>>,
}

/// The observable state change of one poll: an idle slot reports
/// `NotInFlight` and stays idle; a pending slot either stays pending and
/// reports `StillPending`, or becomes idle and hands out the delivered value.
pub open spec fn poll_transition<T>(pre: bool, post: bool, r: Poll<T>) -> bool {
    match r {
        Poll::NotInFlight => !pre && !post,
        Poll::StillPending => pre && post,
        Poll::Delivered(_) => pre && !post,
    }
}

impl<T> Arx<T> {
    /// Whether an operation is in flight: the slot tracks a delivery channel.
    pub closed spec fn is_pending(&self) -> bool {
        self.que is Some
    }

    /// A fresh slot is idle.
    pub fn new() -> (r: Self)
        ensures
            !r.is_pending(),
    {
        Arx { que: None }
    }

    /// Whether a poll would find an operation in flight.
    pub fn ready(&self) -> (r: bool)
        ensures
            r == self.is_pending(),
    {
        self.que.is_some()
    }

    /// Dispatch: track a fresh capacity-one channel, dropping any previously
    /// tracked one, and hand out the write capability for the new channel. A
    /// task still holding a capability for a dropped channel runs to
    /// completion with its result unobserved.
    pub fn task(&mut self) -> (s: ArxSender<T>)
        ensures
            final(self).is_pending(),
    {
        let que = Arc::new(bounded_one());
        let sender = ArxSender { que: share(&que) };
        self.que = Some(que);
        sender
    }

    /// One non-blocking poll, as `poll_transition` describes it: it never
    /// reports a value while idle, and draining a delivered value returns the
    /// slot to idle.
    pub fn poll(&mut self) -> (r: Poll<T>)
        ensures
            poll_transition(old(self).is_pending(), final(self).is_pending(), r),
            !old(self).is_pending() ==> *final(self) == *old(self),
            r is StillPending ==> *final(self) == *old(self),
    {
        match &self.que {
            None => Poll::NotInFlight,
            Some(que) => {
                match pop_one(que) {
                    None => Poll::StillPending,
                    Some(val) => {
                        self.que = None;
                        Poll::Delivered(val)
                    },
                }
            },
        }
    }
}

impl<T> Default for Arx<T> {
    /// The default slot is idle, like a fresh one.
    fn default() -> (r: Self)
        ensures
            !r.is_pending(),
    {
        Arx::new()
    }
}

/// A poll that finds the slot idle reports `NotInFlight`, leaves the slot
/// idle, and never blocks or hands out a value.
pub proof fn lemma_poll_on_idle<T>(post: bool, r: Poll<T>)
    requires
        poll_transition::<T>(false, post, r),
    ensures
        r is NotInFlight,
        !post,
{
}

/// Once a poll has returned `Delivered`, the slot is idle, so the next poll
/// (and every later one before another dispatch) returns `NotInFlight`: a
/// delivered value is handed out exactly once.
pub proof fn lemma_delivered_then_not_in_flight<T>(
    s0: bool,
    s1: bool,
    s2: bool,
    r1: Poll<T>,
    r2: Poll<T>,
)
    requires
        poll_transition::<T>(s0, s1, r1),
        r1 is Delivered,
        poll_transition::<T>(s1, s2, r2),
    ensures
        r2 is NotInFlight,
        !s2,
{
}

/// While an operation is outstanding — in particular right after a second
/// dispatch has replaced the channel of an earlier one — a poll reports
/// `StillPending` or `Delivered`, never `NotInFlight`.
pub proof fn lemma_poll_on_pending<T>(post: bool, r: Poll<T>)
    requires
        poll_transition::<T>(true, post, r),
    ensures
        !(r is NotInFlight),
{
}

} // verus!
