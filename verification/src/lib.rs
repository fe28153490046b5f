//! Bounded queues that never block the producer: a send on a full queue first
//! evicts the oldest unread entries and reports exactly what was removed.
//!
//! The overwrite layer sits on the `flume` channel transport. `bounded_overwrite`
//! builds a paired [`OverwriteSender`] and plain `flume::Receiver`; the sender's
//! `send_overwrite` drains the head of the shared queue until there is room and
//! returns the drained values, oldest first. The sequential semantics of one
//! such send is captured by spec functions and by the
//! [`OverwriteQueue`] reference queue, which the crate's laws are proved
//! against.

mod channel;
mod drain;
mod laws;
mod model;

pub use channel::bounded_overwrite;
pub use channel::OverwriteSender;
pub use drain::complete_send;
pub use drain::needs_eviction;
pub use drain::suspending_drain_step;
pub use drain::sync_drain_step;
pub use drain::DrainDecision;
pub use drain::PopEvent;
pub use drain::PushEvent;
pub use drain::SendError;
pub use laws::drained_all;
pub use laws::lemma_eviction_order;
pub use laws::lemma_rendezvous_always_evicts;
pub use laws::lemma_send_all_window;
pub use laws::lemma_sends_keep_last;
pub use laws::lemma_unbounded_never_evicts;
pub use laws::lemma_under_capacity_no_eviction;
pub use laws::send_all;
pub use model::evict_count;
pub use model::retained_cap;
pub use model::sent_drained;
pub use model::sent_items;
pub use model::OverwriteQueue;
