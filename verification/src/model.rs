//! Sequential semantics of an overwrite-send.
//!
//! The spec functions here say exactly what one overwrite-send does to a queue
//! that nobody else is touching: which entries it evicts and what the queue
//! holds afterwards. [`OverwriteQueue`] is an executable reference queue with
//! precisely these semantics; it is what the transport-backed sender does as
//! observed by a lone producer with no concurrent consumer.

use vstd::prelude::*;

verus! {

/// How many of the oldest entries one overwrite-send removes from a bounded
/// queue of capacity `cap` that currently holds `len` entries.
///
/// A zero-capacity queue has no slack at all, so a send first clears whatever
/// is still unread. Otherwise a send only makes room when the queue is at or
/// over capacity, and then frees exactly enough slots to leave room for one
/// new entry.
pub open spec fn evict_count(cap: nat, len: nat) -> nat {
    if cap == 0 {
        len
    } else if len >= cap {
        (len - cap + 1) as nat
    } else {
        0
    }
}

/// The entries that an overwrite-send removes, oldest first, from a queue
/// holding `q`. An unbounded queue never evicts.
pub open spec fn sent_drained<T>(cap: Option<usize>, q: Seq<T>) -> Seq<T> {
    match cap {
        Some(c) => q.take(evict_count(c as nat, q.len()) as int),
        None => Seq::<T>::empty(),
    }
}

/// The queue contents after an overwrite-send of `v` on a queue holding `q`:
/// the survivors in their original order, with `v` at the back.
pub open spec fn sent_items<T>(cap: Option<usize>, q: Seq<T>, v: T) -> Seq<T> {
    match cap {
        Some(c) => q.skip(evict_count(c as nat, q.len()) as int).push(v),
        None => q.push(v),
    }
}

/// The most entries a bounded queue can hold right after an overwrite-send:
/// its capacity, except that a zero-capacity queue still holds the value just
/// pushed until someone reads it.
pub open spec fn retained_cap(cap: nat) -> nat {
    if cap == 0 {
        1
    } else {
        cap
    }
}

/// An in-memory queue with overwrite-send semantics: sending to a full queue
/// evicts the oldest entries and reports them instead of blocking.
///
/// This is the reference model of the transport-backed sender. Its methods
/// are total and sequential, so every law about eviction order, retained
/// contents and eviction counts can be stated and proved against it exactly.
pub struct OverwriteQueue<T> {
    cap: Option<usize>,
    items: Vec<T>,
}

impl<T> OverwriteQueue<T> {
    /// The capacity bound; `None` means the queue is unbounded.
    pub closed spec fn spec_cap(self) -> Option<usize> {
        self.cap
    }

    /// The queued entries, oldest first.
    pub closed spec fn contents(self) -> Seq<T> {
        self.items@
    }

    /// The queue never holds more entries than its bound allows.
    pub open spec fn wf(self) -> bool {
        self.spec_cap() matches Some(c) ==> self.contents().len() <= retained_cap(c as nat)
    }

    /// Makes an empty queue with the given bound (`None` for unbounded).
    pub fn new(cap: Option<usize>) -> (q: OverwriteQueue<T>)
        ensures
            q.spec_cap() == cap,
            q.contents() == Seq::<T>::empty(),
            q.wf(),
    {
        OverwriteQueue { cap, items: Vec::new() }
    }

    /// How many entries the queue currently holds.
    pub fn len(&self) -> (n: usize)
        ensures
            n == self.contents().len(),
    {
        self.items.len()
    }

    /// The capacity bound; `None` means the queue is unbounded.
    pub fn capacity(&self) -> (c: Option<usize>)
        ensures
            c == self.spec_cap(),
    {
        self.cap
    }

    /// Sends `value`, evicting the oldest entries first if the queue is at or
    /// over its bound. Returns the evicted entries, oldest first, or `None`
    /// when nothing had to make room.
    pub fn send_overwrite(&mut self, value: T) -> (r: Option<Vec<T>>)
        ensures
            final(self).spec_cap() == old(self).spec_cap(),
            final(self).contents() == sent_items(
                old(self).spec_cap(),
                old(self).contents(),
                value,
            ),
            (match r {
                None => sent_drained(old(self).spec_cap(), old(self).contents()).len() == 0,
                Some(d) => d@.len() > 0 && d@ == sent_drained(
                    old(self).spec_cap(),
                    old(self).contents(),
                ),
            }),
            final(self).wf(),
    {
        let cap = self.cap;
        match cap {
            Some(c) => {
                let ghost q0 = self.items@;
                let mut drained: Vec<T> = Vec::new();
                while self.items.len() >= c && self.items.len() > 0
                    invariant
                        self.cap == Some(c),
                        drained@.len() <= q0.len(),
                        drained@ == q0.take(drained@.len() as int),
                        self.items@ == q0.skip(drained@.len() as int),
                        drained@.len() > 0 ==> self.items@.len() + 1 >= c,
                    decreases self.items@.len(),
                {
                    let v = self.items.remove(0);
                    drained.push(v);
                    proof {
                        let d = drained@.len() as int;
                        assert(drained@ =~= q0.take(d));
                        assert(self.items@ =~= q0.skip(d));
                    }
                }
                proof {
                    let d = drained@.len() as int;
                    let l0 = q0.len() as int;
                    assert(self.items@.len() == l0 - d);
                    if c == 0 {
                        assert(d == l0);
                    } else if l0 >= c {
                        assert(d == l0 - c + 1);
                    } else {
                        assert(d == 0);
                    }
                    assert(d == evict_count(c as nat, q0.len()) as int);
                }
                self.items.push(value);
                if drained.len() == 0 {
                    proof {
                        assert(q0.take(0) =~= Seq::<T>::empty());
                    }
                    None
                } else {
                    Some(drained)
                }
            }
            None => {
                self.items.push(value);
                None
            }
        }
    }

    /// Takes the oldest entry out of the queue, or `None` when it is empty.
    pub fn recv(&mut self) -> (r: Option<T>)
        ensures
            final(self).spec_cap() == old(self).spec_cap(),
            old(self).contents().len() == 0 ==> r is None
                && final(self).contents() == old(self).contents(),
            old(self).contents().len() > 0 ==> (r matches Some(v)
                && v == old(self).contents()[0]
                && final(self).contents() == old(self).contents().skip(1)),
            old(self).wf() ==> final(self).wf(),
    {
        if self.items.len() == 0 {
            None
        } else {
            let v = self.items.remove(0);
            proof {
                assert(self.items@ =~= old(self).items@.skip(1));
            }
            Some(v)
        }
    }
}

} // verus!
