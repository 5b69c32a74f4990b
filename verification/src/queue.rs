//! The task queue: a FIFO of opaque work items with a one-way "no more
//! items" completion signal.

use vstd::prelude::*;

verus! {

/// Why an `enqueue` call was rejected.
#[derive(Debug, Clone, Copy, PartialEq, Eq, Structural)]
pub enum QueueError {
    /// The completion signal was already set: no further items are accepted.
    QueueClosed,
    /// The queue was configured with a capacity bound and is full.
    QueueFull,
}

/// What a worker receives from `dequeue`: either the item at the head of the
/// queue, or the sentinel saying the queue is completed and empty, so no
/// further work will ever arrive.
#[derive(Debug)]
pub enum DequeueSignal<T> {
    Item(T),
    NoMoreWork,
}

/// A FIFO queue of work items. `items@` is the queued sequence, head first;
/// `closed` records whether the one-way completion signal has been set.
pub struct TaskQueue<T> {
    pub items: Vec<T>,
    pub closed: bool,
}

impl<T> TaskQueue<T> {
    /// A fresh queue: empty and accepting items.
    pub fn new() -> (q: TaskQueue<T>)
        ensures
            q.items@ == Seq::<T>::empty(),
            !q.closed,
    {
        TaskQueue { items: Vec::new(), closed: false }
    }

    /// How many items are queued.
    pub fn len(&self) -> (n: usize)
        ensures
            n == self.items@.len(),
    {
        self.items.len()
    }

    /// Whether the completion signal has been set.
    pub fn is_closed(&self) -> (b: bool)
        ensures
            b == self.closed,
    {
        self.closed
    }

    /// Adds an item at the tail. Fails with `QueueClosed`, leaving the queue
    /// unchanged, exactly when the completion signal was already set.
    pub fn enqueue(&mut self, item: T) -> (r: Result<(), QueueError>)
        ensures
            old(self).closed ==> r == Err::<(), QueueError>(QueueError::QueueClosed)
                && *final(self) == *old(self),
            !old(self).closed ==> r == Ok::<(), QueueError>(())
                && final(self).items@ == old(self).items@.push(item)
                && !final(self).closed,
    {
        if self.closed {
            Err(QueueError::QueueClosed)
        } else {
            self.items.push(item);
            Ok(())
        }
    }

    /// Sets the one-way completion signal: no further items are accepted.
    /// Queued items stay and will still be handed out.
    pub fn complete(&mut self)
        ensures
            final(self).closed,
            final(self).items@ == old(self).items@,
    {
        self.closed = true;
    }

    /// Removes and returns the item at the head. Returns the `NoMoreWork`
    /// sentinel, and never an item, exactly when the queue is completed and
    /// empty. A worker may only call this when the queue is closed or
    /// non-empty; otherwise it would have to block for a producer.
    pub fn dequeue(&mut self) -> (r: DequeueSignal<T>)
        requires
            old(self).closed || old(self).items@.len() > 0,
        ensures
            final(self).closed == old(self).closed,
            old(self).items@.len() == 0 ==> r is NoMoreWork
                && final(self).items@ == old(self).items@,
            old(self).items@.len() > 0 ==> {
                &&& r matches DequeueSignal::Item(it)
                &&& it == old(self).items@[0]
                &&& final(self).items@ == old(self).items@.skip(1)
            },
    {
        if self.items.len() == 0 {
            DequeueSignal::NoMoreWork
        } else {
            let item = self.items.remove(0);
            assert(self.items@ =~= old(self).items@.skip(1));
            DequeueSignal::Item(item)
        }
    }
}

} // verus!
