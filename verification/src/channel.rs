//! The overwrite layer over the `flume` channel transport.
//!
//! [`bounded_overwrite`] builds one shared queue with a producer handle and a
//! plain consumer handle. The producer's [`OverwriteSender::send_overwrite`]
//! never waits for space: while the queue is at or over its bound it pops the
//! head through an internal receiver and reports every popped value, oldest
//! first, to the caller. Each transport call stands behind a trusted wrapper;
//! every decision taken on a wrapper's outcome is verified code taken from
//! the decision functions of this crate.

use vstd::prelude::*;

use crate::drain::complete_send;
use crate::drain::needs_eviction;
use crate::drain::sync_drain_step;
use crate::drain::DrainDecision;
use crate::drain::PopEvent;
use crate::drain::PushEvent;
use crate::drain::SendError;

verus! {

#[verifier::external_type_specification]
#[verifier::external_body]
#[verifier::reject_recursive_types(T)]
pub struct ExSender<T>(flume::Sender<T>);

#[verifier::external_type_specification]
#[verifier::external_body]
#[verifier::reject_recursive_types(T)]
pub struct ExReceiver<T>(flume::Receiver<T>);

/// Relies on `flume::bounded`: a connected sender/receiver pair over one
/// fresh queue with `slots` buffered slots.
#[verifier::external_body]
fn new_transport<T>(slots: usize) -> (flume::Sender<T>, flume::Receiver<T>) {
    flume::bounded(slots)
}

/// Relies on `flume::Sender::clone`: another handle sending into the same
/// queue as `tx`.
pub assume_specification<T>[ <flume::Sender<T> as Clone>::clone ](
    tx: &flume::Sender<T>,
) -> flume::Sender<T>;

/// Relies on `flume::Receiver::clone`: another handle reading from the same
/// queue as `rx`, racing fairly with it for head messages.
pub assume_specification<T>[ <flume::Receiver<T> as Clone>::clone ](
    rx: &flume::Receiver<T>,
) -> flume::Receiver<T>;

/// Relies on `flume::Sender::len`: the number of messages queued at the
/// moment of the call. Concurrent producers and consumers may change it at
/// any time, so nothing more is claimed of it.
#[verifier::external_body]
fn transport_len<T>(tx: &flume::Sender<T>) -> usize {
    tx.len()
}

/// A producer handle whose sends never wait for space: a send on a full
/// queue evicts the oldest unread messages and reports them to the caller.
///
/// The handle wraps a transport sender together with a receiver used only to
/// drain the queue's head for eviction. That internal receiver reads from the
/// same queue as the consumer handle returned by [`bounded_overwrite`], so an
/// eviction by any producer clone removes the message from every consumer's
/// view — and it keeps the queue's consumer side alive, so a send on a live
/// handle always succeeds. Cloning the handle shares both ends and the bound.
#[derive(Clone)]
#[verifier::reject_recursive_types(T)]
pub struct OverwriteSender<T> {
    sender: flume::Sender<T>,
    receiver: flume::Receiver<T>,
    bound: Option<usize>,
}

/// Creates a queue with capacity bound `cap` and returns its
/// overwrite-capable producer handle paired with a plain consumer handle.
///
/// The producer keeps a private clone of the consumer end for eviction, so
/// the queue stays alive — and sends keep succeeding — even after the caller
/// drops the returned receiver. A bound of zero means no slack at all: every
/// send first evicts whatever is still unread; the transport underneath such
/// a queue is given a single buffered slot, so that the send can still
/// complete with nobody actively receiving.
pub fn bounded_overwrite<T>(cap: usize) -> (r: (OverwriteSender<T>, flume::Receiver<T>))
    ensures
        r.0.spec_cap() == Some(cap),
{
    let slots = if cap == 0 {
        1
    } else {
        cap
    };
    let (tx, rx) = new_transport(slots);
    let internal = rx.clone();
    (OverwriteSender { sender: tx, receiver: internal, bound: Some(cap) }, rx)
}

impl<T> OverwriteSender<T> {
    /// The capacity bound the handle's queue was created with; `None` means
    /// the queue is unbounded.
    pub closed spec fn spec_cap(self) -> Option<usize> {
        self.bound
    }

    /// The capacity bound the handle's queue was created with; `None` means
    /// the queue is unbounded.
    pub fn capacity(&self) -> (c: Option<usize>)
        ensures
            c == self.spec_cap(),
    {
        self.bound
    }

    /// The transport sender this handle pushes through. It exposes the plain
    /// transport surface — raw push, occupancy, capacity and disconnect
    /// queries — untouched by the overwrite layer; note that under a bound
    /// of zero the transport itself reports its single buffered slot.
    pub fn sender(&self) -> &flume::Sender<T> {
        &self.sender
    }

    /// The internal receiver the eviction loop pops through. It reads from
    /// the same queue as every consumer handle; a driver that embeds the
    /// suspending send variant performs its suspending pops on it.
    pub fn eviction_receiver(&self) -> &flume::Receiver<T> {
        &self.receiver
    }

    /// Relies on `flume::Receiver::try_recv`: the queue's head message when
    /// one is there, else word that the queue was empty. Its third outcome —
    /// every sender gone — cannot reach this handle: the handle's own
    /// transport sender lives for the whole call, and flume reports a
    /// disconnect only once the last sender has been dropped.
    #[verifier::external_body]
    fn pop_head(&self) -> (ev: PopEvent<T>)
        ensures
            ev is Popped || ev is EmptyNow,
    {
        match self.receiver.try_recv() {
            Ok(v) => PopEvent::Popped(v),
            Err(flume::TryRecvError::Empty) => PopEvent::EmptyNow,
            Err(flume::TryRecvError::Disconnected) => PopEvent::Closed,
        }
    }

    /// Relies on `flume::Sender::send`: it waits until the queue has room
    /// and reports delivery. Its failure — every receiver gone — cannot
    /// reach this handle: the handle's own internal receiver lives for the
    /// whole call, and flume fails a send only once the last receiver has
    /// been dropped.
    #[verifier::external_body]
    fn push_value(&self, value: T) -> (r: PushEvent<T>)
        ensures
            r is Delivered,
    {
        match self.sender.send(value) {
            Ok(()) => PushEvent::Delivered,
            Err(flume::SendError(v)) => PushEvent::Refused(v),
        }
    }

    /// Sends `value`, evicting the oldest unread messages first when the
    /// queue is at or over its bound, and never waiting for a consumer to
    /// make room.
    ///
    /// The send always succeeds: the handle's own internal receiver keeps
    /// the queue's consumer side alive, so the transport can never refuse
    /// the final push for want of a receiver. It returns `Ok(None)` when
    /// nothing had to be evicted and `Ok(Some(list))` with the evicted
    /// messages oldest first otherwise; the error arm of the result carries
    /// the undelivered value wherever the same result is assembled from a
    /// push that can actually be refused.
    ///
    /// A benign race — the occupancy read was stale because a concurrent
    /// consumer already drained the head — makes the eviction loop re-check
    /// rather than fail. Every round of the loop, whether it popped a
    /// message or found the queue momentarily empty, spends one round of a
    /// budget equal to the occupancy observed when the send began; an
    /// exhausted budget ends the eviction and the send falls back to the
    /// transport's own waiting push, which is never reached without
    /// concurrent interference.
    ///
    /// With no concurrent consumer the evictions follow
    /// [`sent_drained`](crate::sent_drained) and the queue afterwards holds
    /// [`sent_items`](crate::sent_items); the crate's laws pin that
    /// behaviour down.
    pub fn send_overwrite(&self, value: T) -> (r: Result<Option<Vec<T>>, SendError<T>>)
        ensures
            r is Ok,
            r matches Ok(Some(vs)) ==> vs@.len() > 0,
            self.spec_cap() is None ==> r matches Ok(None),
    {
        match self.bound {
            Some(capacity) => {
                let mut drained: Vec<T> = Vec::new();
                let mut budget = transport_len(&self.sender);
                loop
                    decreases budget,
                {
                    let occupancy = transport_len(&self.sender);
                    if !needs_eviction(Some(capacity), occupancy) {
                        break;
                    }
                    if occupancy == 0 {
                        break;
                    }
                    if budget == 0 {
                        break;
                    }
                    let ev = self.pop_head();
                    let ghost observed = ev;
                    match sync_drain_step(&mut drained, ev) {
                        DrainDecision::KeepDraining => {}
                        DrainDecision::StopDraining => {
                            break;
                        }
                        DrainDecision::Abort => {
                            proof {
                                // The step aborts only on a closed drain
                                // path, which pop_head rules out.
                                assert(observed is Popped || observed is EmptyNow);
                                assert(false);
                            }
                            return Err(SendError(value));
                        }
                    }
                    budget = budget - 1;
                }
                let push = self.push_value(value);
                complete_send(drained, push)
            }
            None => {
                let drained: Vec<T> = Vec::new();
                let push = self.push_value(value);
                complete_send(drained, push)
            }
        }
    }
}

} // verus!
