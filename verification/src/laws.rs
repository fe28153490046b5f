//! Laws of the overwrite queue.
//!
//! Each proof function here states, over the spec functions that the
//! [`OverwriteQueue`](crate::OverwriteQueue) contracts use, a guarantee the overwrite layer gives a
//! lone producer with no concurrent consumer: what a whole run of sends
//! leaves in the queue, in what order evictions are reported, and when no
//! eviction can happen at all.

use vstd::prelude::*;

use crate::model::evict_count;
use crate::model::sent_drained;
use crate::model::sent_items;

verus! {

/// The queue contents after overwrite-sending every value of `vs`, in order,
/// to a queue that holds `q`.
pub open spec fn send_all<T>(cap: Option<usize>, q: Seq<T>, vs: Seq<T>) -> Seq<T>
    decreases vs.len(),
{
    if vs.len() == 0 {
        q
    } else {
        send_all(cap, sent_items(cap, q, vs[0]), vs.skip(1))
    }
}

/// Everything those sends report as evicted, concatenated in the order the
/// sends ran.
pub open spec fn drained_all<T>(cap: Option<usize>, q: Seq<T>, vs: Seq<T>) -> Seq<T>
    decreases vs.len(),
{
    if vs.len() == 0 {
        Seq::<T>::empty()
    } else {
        sent_drained(cap, q) + drained_all(cap, sent_items(cap, q, vs[0]), vs.skip(1))
    }
}

/// A run of sends against a bounded queue keeps a sliding window: starting
/// from contents within capacity, the queue ends up holding the last `cap`
/// entries of old contents followed by sent values, and everything older is
/// reported as evicted, in order.
pub proof fn lemma_send_all_window<T>(cap: usize, q: Seq<T>, vs: Seq<T>)
    requires
        cap >= 1,
        q.len() <= cap,
    ensures
        ({
            let total = q + vs;
            let over: int = if total.len() > cap {
                total.len() - cap
            } else {
                0
            };
            send_all(Some(cap), q, vs) == total.skip(over) && drained_all(Some(cap), q, vs)
                == total.take(over)
        }),
    decreases vs.len(),
{
    let total = q + vs;
    let over: int = if total.len() > cap {
        total.len() - cap
    } else {
        0
    };
    if vs.len() == 0 {
        assert(total =~= q);
        assert(total.skip(0) =~= q);
        assert(total.take(0) =~= Seq::<T>::empty());
    } else {
        let v = vs[0];
        let q1 = sent_items(Some(cap), q, v);
        let d1 = sent_drained(Some(cap), q);
        if q.len() < cap {
            assert(evict_count(cap as nat, q.len()) == 0);
            assert(q1 =~= q.push(v));
            assert(d1 =~= Seq::<T>::empty());
            lemma_send_all_window(cap, q1, vs.skip(1));
            let total1 = q1 + vs.skip(1);
            let over1: int = if total1.len() > cap {
                total1.len() - cap
            } else {
                0
            };
            assert(total1 =~= total);
            assert(over1 == over);
            assert(drained_all(Some(cap), q, vs) =~= total.take(over));
        } else {
            assert(q.len() == cap);
            assert(evict_count(cap as nat, q.len()) == 1);
            assert(q1 =~= q.skip(1).push(v));
            assert(d1 =~= q.take(1));
            assert(q1.len() == cap);
            lemma_send_all_window(cap, q1, vs.skip(1));
            let total1 = q1 + vs.skip(1);
            let over1: int = if total1.len() > cap {
                total1.len() - cap
            } else {
                0
            };
            assert(total1 =~= total.skip(1));
            assert(total.len() == cap + vs.len());
            assert(over == vs.len());
            assert(over1 == vs.len() - 1);
            assert(total1.skip(over1) =~= total.skip(over));
            assert(send_all(Some(cap), q, vs) == total.skip(over));
            assert(d1 + total1.take(over1) =~= total.take(over));
            assert(drained_all(Some(cap), q, vs) == total.take(over));
        }
    }
}

/// Law: with no concurrent consumer, a run of N sends to an empty bounded
/// queue of capacity `cap`, with N exceeding `cap`, leaves exactly the last
/// `cap` values sent, in their original order; the values reported as
/// evicted across the run are exactly the first N − `cap`, in the order they
/// were sent, so in particular N − `cap` values are reported in total.
pub proof fn lemma_sends_keep_last<T>(cap: usize, vs: Seq<T>)
    requires
        cap >= 1,
        vs.len() > cap,
    ensures
        send_all(Some(cap), Seq::<T>::empty(), vs) == vs.skip(vs.len() - cap),
        drained_all(Some(cap), Seq::<T>::empty(), vs) == vs.take(vs.len() - cap),
        drained_all(Some(cap), Seq::<T>::empty(), vs).len() == vs.len() - cap,
{
    lemma_send_all_window(cap, Seq::<T>::empty(), vs);
    assert(Seq::<T>::empty() + vs =~= vs);
}

/// Law: one send's eviction list is a prefix of the queue — the values come
/// out oldest first, in the order they were enqueued — and the value being
/// sent is never evicted by its own send unless it was already queued.
pub proof fn lemma_eviction_order<T>(cap: usize, q: Seq<T>, v: T)
    ensures
        ({
            let d = sent_drained(Some(cap), q);
            d.len() <= q.len() && (forall|i: int| 0 <= i < d.len() ==> d[i] == q[i]) && (
            !q.contains(v) ==> !d.contains(v))
        }),
{
    let d = sent_drained(Some(cap), q);
    assert(d =~= q.take(d.len() as int));
    if !q.contains(v) && d.contains(v) {
        let i = choose|i: int| 0 <= i < d.len() && d[i] == v;
        assert(q[i] == v);
        assert(q.contains(v));
    }
}

/// Law: a send to a bounded queue strictly under its capacity evicts
/// nothing; the queue just grows by the sent value.
pub proof fn lemma_under_capacity_no_eviction<T>(cap: usize, q: Seq<T>, v: T)
    requires
        q.len() < cap,
    ensures
        sent_drained(Some(cap), q).len() == 0,
        sent_items(Some(cap), q, v) == q.push(v),
{
    assert(q.skip(0) =~= q);
}

/// Law: an unbounded queue never evicts, whatever it holds; a send only
/// appends.
pub proof fn lemma_unbounded_never_evicts<T>(q: Seq<T>, v: T)
    ensures
        sent_drained(None, q).len() == 0,
        sent_items(None, q, v) == q.push(v),
{
}

/// Law: a zero-capacity queue has no slack, so every send first evicts all
/// still-unread values; in particular a send right after an unconsumed send
/// evicts exactly the immediately preceding value.
pub proof fn lemma_rendezvous_always_evicts<T>(q: Seq<T>, u: T, v: T)
    ensures
        sent_drained(Some(0), q) == q,
        sent_items(Some(0), q, v) == seq![v],
        sent_drained(Some(0), sent_items(Some(0), q, u)) == seq![u],
{
    assert(q.take(q.len() as int) =~= q);
    assert(q.skip(q.len() as int).push(v) =~= seq![v]);
    assert(q.skip(q.len() as int).push(u) =~= seq![u]);
    let q1 = sent_items(Some(0), q, u);
    assert(q1.take(q1.len() as int) =~= q1);
}

} // verus!
