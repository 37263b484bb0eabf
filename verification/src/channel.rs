//! The event channel: a non-blocking, first-in first-out queue of events.
//!
//! The channel is the only structure shared between the producing and the
//! consuming side of the engine.  Pushing never blocks; popping never blocks
//! and returns `None` on an empty queue, which the event loops use as the
//! signal that a tick's work is done.  The receiving side is released
//! explicitly with [`EventQueue::close`]; a push after that fails with
//! [`ReceiverDroppedError`], a recoverable condition during shutdown races.

use vstd::prelude::*;

verus! {

/// The error returned when an event is pushed after the receiving side of
/// the channel has been released.
#[derive(Clone, Copy, PartialEq, Eq, Debug)]
pub struct ReceiverDroppedError;

/// What a pop on a queue with contents `s` returns, and what it leaves.
pub open spec fn pop_model<T>(s: Seq<T>) -> (Option<T>, Seq<T>) {
    if s.len() == 0 {
        (None, s)
    } else {
        (Some(s[0]), s.drop_first())
    }
}

/// A first-in first-out queue of events with an explicitly released
/// receiving side.
pub struct EventQueue<T> {
    items: Vec<T>,
    open: bool,
}

impl<T> EventQueue<T> {
    /// The events currently queued, oldest first.
    pub closed spec fn contents(self) -> Seq<T> {
        self.items@
    }

    /// Whether the receiving side is still live.
    pub closed spec fn is_open(self) -> bool {
        self.open
    }

    /// Create an empty, open channel.
    pub fn new() -> (r: Self)
        ensures
            r.contents() === Seq::empty(),
            r.is_open(),
    {
        EventQueue { items: Vec::new(), open: true }
    }

    /// Enqueue an event.  Succeeds exactly when the receiving side is still
    /// live; a failed push leaves the queue unchanged.
    pub fn push(&mut self, event: T) -> (r: Result<(), ReceiverDroppedError>)
        ensures
            old(self).is_open() ==> {
                &&& r is Ok
                &&& final(self).contents() == old(self).contents().push(event)
            },
            !old(self).is_open() ==> {
                &&& r is Err
                &&& final(self).contents() == old(self).contents()
            },
            final(self).is_open() == old(self).is_open(),
    {
        if self.open {
            self.items.push(event);
            Ok(())
        } else {
            Err(ReceiverDroppedError)
        }
    }

    /// Dequeue the oldest event, or return `None` at once when the queue is
    /// empty.  This never blocks.
    pub fn pop(&mut self) -> (r: Option<T>)
        ensures
            r == pop_model(old(self).contents()).0,
            final(self).contents() == pop_model(old(self).contents()).1,
            final(self).is_open() == old(self).is_open(),
    {
        if self.items.len() == 0 {
            None
        } else {
            let first = self.items.remove(0);
            assert(final(self).contents() =~= pop_model(old(self).contents()).1);
            Some(first)
        }
    }

    /// The number of queued events.
    pub fn len(&self) -> (r: usize)
        ensures
            r == self.contents().len(),
    {
        self.items.len()
    }

    /// Release the receiving side: every later push fails.  Events already
    /// queued are kept and may still be popped.
    pub fn close(&mut self)
        ensures
            final(self).contents() == old(self).contents(),
            !final(self).is_open(),
    {
        self.open = false;
    }
}

/// The contents of a queue after the events of `batch` are pushed onto it
/// one at a time, oldest first.
pub open spec fn pushed_all<T>(s: Seq<T>, batch: Seq<T>) -> Seq<T>
    decreases batch.len(),
{
    if batch.len() == 0 {
        s
    } else {
        pushed_all(s.push(batch[0]), batch.drop_first())
    }
}

/// Pushing a batch of events enqueues exactly that batch, in submission
/// order, behind what was already queued.
pub proof fn lemma_pushes_append<T>(s: Seq<T>, batch: Seq<T>)
    ensures
        pushed_all(s, batch) == s + batch,
    decreases batch.len(),
{
    if batch.len() == 0 {
        assert(pushed_all(s, batch) =~= s + batch);
    } else {
        lemma_pushes_append(s.push(batch[0]), batch.drop_first());
        assert(s.push(batch[0]) + batch.drop_first() =~= s + batch);
    }
}

/// Events are popped in submission order: after a batch is pushed onto an
/// empty queue, the `k`-th pop returns the `k`-th event of the batch, and
/// leaves the rest queued.
pub proof fn lemma_fifo_order<T>(batch: Seq<T>, k: int)
    requires
        0 <= k < batch.len(),
    ensures
        pop_model(pushed_all(Seq::<T>::empty(), batch).skip(k)).0 == Some(batch[k]),
        pop_model(pushed_all(Seq::<T>::empty(), batch).skip(k)).1 == pushed_all(
            Seq::<T>::empty(),
            batch,
        ).skip(k + 1),
{
    lemma_pushes_append(Seq::<T>::empty(), batch);
    assert(pushed_all(Seq::<T>::empty(), batch) =~= batch);
    assert(batch.skip(k)[0] == batch[k]);
    assert(batch.skip(k).drop_first() =~= batch.skip(k + 1));
}

} // verus!
