//! Decision logic of one overwrite-send.
//!
//! A send alternates between observing the transport (occupancy, the outcome
//! of a head pop, the outcome of the final push) and deciding what to do with
//! what it saw. The observations are transport calls; every decision is a
//! function here, so the whole policy of the send — when to drain, what to
//! keep of each drain outcome, how the two scheduling variants treat a dead
//! drain path, and how the final result is assembled — is verified code.

use vstd::prelude::*;

verus! {

/// The single failure of an overwrite-send: no live consumer remains on the
/// queue. It carries the value that could not be delivered back to the
/// caller, so nothing just sent is ever silently dropped.
#[derive(Debug, PartialEq, Eq)]
pub struct SendError<T>(pub T);

/// What one pop of the queue's head reported.
#[derive(Debug)]
pub enum PopEvent<T> {
    /// The head message was removed and handed out.
    Popped(T),
    /// The queue was empty at the moment of the pop.
    EmptyNow,
    /// Every handle on the producing side of the pop's queue is gone.
    Closed,
}

/// What the final push of the value being sent reported.
#[derive(Debug)]
pub enum PushEvent<T> {
    /// The value is in the queue.
    Delivered,
    /// Every consumer is gone; the undelivered value comes back.
    Refused(T),
}

/// What the eviction loop does after absorbing one pop outcome.
#[derive(Clone, Copy, Debug, PartialEq, Eq, Structural)]
pub enum DrainDecision {
    /// Occupancy must be checked again, and drained again if still needed.
    KeepDraining,
    /// Stop evicting and go straight to the final push.
    StopDraining,
    /// Abandon the send and report failure to the caller.
    Abort,
}

/// Whether a send must evict before pushing: only a bounded queue at or over
/// its capacity needs room made. An unbounded queue never does.
pub fn needs_eviction(cap: Option<usize>, len: usize) -> (r: bool)
    ensures
        r == (match cap {
            Some(c) => len >= c,
            None => false,
        }),
{
    match cap {
        Some(c) => len >= c,
        None => false,
    }
}

/// Absorbs one pop outcome in the thread-blocking variant: a popped value
/// joins the eviction list; an empty report is the benign race with a
/// concurrent consumer, so the loop just re-checks occupancy; a dead drain
/// path aborts the whole send.
pub fn sync_drain_step<T>(drained: &mut Vec<T>, ev: PopEvent<T>) -> (d: DrainDecision)
    ensures
        ev matches PopEvent::Popped(v) ==> final(drained)@ == old(drained)@.push(v)
            && d == DrainDecision::KeepDraining,
        ev matches PopEvent::EmptyNow ==> final(drained)@ == old(drained)@
            && d == DrainDecision::KeepDraining,
        ev matches PopEvent::Closed ==> final(drained)@ == old(drained)@
            && d == DrainDecision::Abort,
{
    match ev {
        PopEvent::Popped(v) => {
            drained.push(v);
            DrainDecision::KeepDraining
        }
        PopEvent::EmptyNow => DrainDecision::KeepDraining,
        PopEvent::Closed => DrainDecision::Abort,
    }
}

/// Absorbs one pop outcome in the cooperatively-suspending variant. It
/// differs from [`sync_drain_step`] in exactly one decision: a dead drain
/// path ends the eviction quietly and lets the final push speak for itself
/// instead of aborting the send.
pub fn suspending_drain_step<T>(drained: &mut Vec<T>, ev: PopEvent<T>) -> (d: DrainDecision)
    ensures
        ev matches PopEvent::Popped(v) ==> final(drained)@ == old(drained)@.push(v)
            && d == DrainDecision::KeepDraining,
        ev matches PopEvent::EmptyNow ==> final(drained)@ == old(drained)@
            && d == DrainDecision::KeepDraining,
        ev matches PopEvent::Closed ==> final(drained)@ == old(drained)@
            && d == DrainDecision::StopDraining,
{
    match ev {
        PopEvent::Popped(v) => {
            drained.push(v);
            DrainDecision::KeepDraining
        }
        PopEvent::EmptyNow => DrainDecision::KeepDraining,
        PopEvent::Closed => DrainDecision::StopDraining,
    }
}

/// Assembles the result a send hands its caller from the eviction list and
/// the outcome of the final push: a refused push surfaces the undelivered
/// value unchanged; a delivered push reports the eviction list, with an empty
/// list folded into the "nothing evicted" answer.
pub fn complete_send<T>(drained: Vec<T>, push: PushEvent<T>) -> (r: Result<
    Option<Vec<T>>,
    SendError<T>,
>)
    ensures
        push matches PushEvent::Refused(v) ==> (r matches Err(e) && e.0 == v),
        (push matches PushEvent::Delivered && drained@.len() == 0) ==> (r matches Ok(d)
            && d is None),
        (push matches PushEvent::Delivered && drained@.len() > 0) ==> (r matches Ok(d)
            && d matches Some(vs) && vs@ == drained@),
{
    match push {
        PushEvent::Delivered => {
            if drained.len() == 0 {
                Ok(None)
            } else {
                Ok(Some(drained))
            }
        }
        PushEvent::Refused(v) => Err(SendError(v)),
    }
}

} // verus!
