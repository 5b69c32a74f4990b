//! The worker pool (consumer): owns the queue and a configured number of
//! workers, drives each delegate call, and coordinates the lifecycle
//! (`on_started` once, a `process`/`on_completed` pair per delivered item,
//! `on_finished` once after the last worker exits).
//!
//! The pool keeps a ghost trace of every delegate invocation it makes, in
//! call order. The lifecycle guarantees are stated over that trace: what
//! `on_started` precedes, where `on_finished` stands, and that the items
//! delivered to `process` are exactly the front of the queue, once each.

use vstd::prelude::*;

use crate::outcome::classify;
use crate::outcome::RawResult;
use crate::outcome::TaskOutcome;
use crate::queue::DequeueSignal;
use crate::queue::QueueError;
use crate::queue::TaskQueue;

verus! {

/// Pool configuration, immutable once the pool starts: how many workers to
/// run, and an optional bound on how many items may wait in the queue.
#[derive(Debug, Clone, Copy, PartialEq, Eq)]
pub struct ConsumerOptions {
    pub worker_count: usize,
    pub queue_capacity: Option<usize>,
}

impl ConsumerOptions {
    /// The default configuration: one worker, no queue bound.
    pub fn new() -> (o: ConsumerOptions)
        ensures
            o.worker_count == 1,
            o.queue_capacity is None,
    {
        ConsumerOptions { worker_count: 1, queue_capacity: None }
    }

    /// The same options with the given worker count.
    pub fn with_workers(self, worker_count: usize) -> (o: ConsumerOptions)
        ensures
            o.worker_count == worker_count,
            o.queue_capacity == self.queue_capacity,
    {
        ConsumerOptions { worker_count, queue_capacity: self.queue_capacity }
    }

    /// The same options with the given queue bound.
    pub fn with_capacity(self, queue_capacity: usize) -> (o: ConsumerOptions)
        ensures
            o.worker_count == self.worker_count,
            o.queue_capacity == Some(queue_capacity),
    {
        ConsumerOptions { worker_count: self.worker_count, queue_capacity: Some(queue_capacity) }
    }
}

/// The pool's lifecycle phase. Transitions are monotonic:
/// NotStarted -> Running (on `start`) -> Completing (on `complete`)
/// -> Drained (once the queue is exhausted and every worker has exited).
#[derive(Debug, Clone, Copy, PartialEq, Eq, Structural)]
pub enum Phase {
    NotStarted,
    Running,
    Completing,
    Drained,
}

/// Why a `start` call was rejected.
#[derive(Debug, Clone, Copy, PartialEq, Eq, Structural)]
pub enum StartError {
    /// The pool was already started; `start` is accepted once.
    AlreadyStarted,
    /// The options configure zero workers, so no work could ever drain.
    NoWorkers,
}

/// One delegate invocation made by the pool, in the pool's ghost trace.
pub enum Event<T> {
    /// `on_started` was invoked.
    Started,
    /// `process` was invoked on this item.
    Process { item: T },
    /// `on_completed` was invoked for this item with this classified
    /// outcome; `resume` is the continuation flag it returned.
    Completed { item: T, outcome: TaskOutcome, resume: bool },
    /// `on_finished` was invoked.
    Finished,
}

/// The delegate protocol: the per-item work function plus three lifecycle
/// hooks, supplied by the pool's user. The pool passes each hook the facts
/// it needs (its worker count, the item, the classified outcome) rather than
/// a handle to itself.
pub trait TaskDelegation<T> {
    /// Whether this delegate promises to always let its worker continue:
    /// a delegate that declares `true` here must never return `false` from
    /// `on_completed`, and the pool then guarantees a full drain. The
    /// default promises nothing.
    open spec fn always_resumes() -> bool {
        false
    }

    /// Called exactly once, before any `process` call.
    fn on_started(&mut self, worker_count: usize);

    /// Performs the unit of work on one item. Expected failures (a timeout,
    /// a transport or logic error, an invalid value) are reported in the
    /// returned `RawResult`, never by panicking.
    fn process(&mut self, item: &T) -> RawResult;

    /// Called after every `process` call with the classified outcome.
    /// Returning `false` stops the worker that delivered this item; other
    /// workers continue.
    fn on_completed(&mut self, item: &T, outcome: &TaskOutcome) -> (keep_going: bool)
        ensures
            Self::always_resumes() ==> keep_going,
    ;

    /// Called exactly once, after the last worker has exited.
    fn on_finished(&mut self);
}

/// What shape the trace has in each phase: nothing before `start`; `Started`
/// first and only item deliveries after it while the pool runs; exactly one
/// `Finished`, at the very end, once the pool has drained.
pub open spec fn trace_wf<T>(tr: Seq<Event<T>>, phase: Phase) -> bool {
    match phase {
        Phase::NotStarted => tr.len() == 0,
        Phase::Running | Phase::Completing => {
            &&& tr.len() >= 1
            &&& tr[0] is Started
            &&& forall|i: int|
                1 <= i < tr.len() ==> ((#[trigger] tr[i]) is Process || tr[i] is Completed)
        },
        Phase::Drained => {
            &&& tr.len() >= 2
            &&& tr[0] is Started
            &&& tr[tr.len() - 1] is Finished
            &&& forall|i: int|
                1 <= i < tr.len() - 1 ==> ((#[trigger] tr[i]) is Process || tr[i] is Completed)
        },
    }
}

/// Every `process` invocation is followed immediately by the matching
/// `on_completed` report for the same item, and every report stands
/// immediately after the delivery it reports: deliveries and reports come
/// in pairs, one report per delivery. No report ever carries `Cancelled`:
/// that variant is reserved for a shutdown that interrupts an item
/// mid-flight, which the drain path never does.
pub open spec fn paired<T>(tr: Seq<Event<T>>) -> bool {
    &&& forall|i: int|
        0 <= i < tr.len() && (#[trigger] tr[i]) is Process ==> {
            &&& i + 1 < tr.len()
            &&& tr[i + 1] is Completed
            &&& tr[i + 1]->Completed_item == tr[i]->Process_item
        }
    &&& forall|i: int|
        0 <= i < tr.len() && (#[trigger] tr[i]) is Completed ==> {
            &&& 0 < i
            &&& tr[i - 1] is Process
            &&& tr[i - 1]->Process_item == tr[i]->Completed_item
            &&& !(tr[i]->Completed_outcome is Cancelled)
        }
}

/// The items delivered to `process`, in delivery order.
pub open spec fn processed_of<T>(tr: Seq<Event<T>>) -> Seq<T>
    decreases tr.len(),
{
    if tr.len() == 0 {
        Seq::empty()
    } else if tr.last() is Process {
        processed_of(tr.drop_last()).push(tr.last()->Process_item)
    } else {
        processed_of(tr.drop_last())
    }
}

proof fn lemma_processed_push<T>(tr: Seq<Event<T>>, e: Event<T>)
    ensures
        e is Process ==> processed_of(tr.push(e)) == processed_of(tr).push(e->Process_item),
        !(e is Process) ==> processed_of(tr.push(e)) == processed_of(tr),
{
    assert(tr.push(e).drop_last() =~= tr);
    assert(tr.push(e).last() == e);
}

proof fn lemma_prefix_push<T>(a: Seq<T>, b: Seq<T>, e: T)
    requires
        a.is_prefix_of(b),
    ensures
        a.is_prefix_of(b.push(e)),
{
    assert(b.push(e).take(a.len() as int) =~= b.take(a.len() as int));
}

/// The position of a phase in the one-way lifecycle: transitions only ever
/// move forward.
pub open spec fn phase_rank(p: Phase) -> int {
    match p {
        Phase::NotStarted => 0,
        Phase::Running => 1,
        Phase::Completing => 2,
        Phase::Drained => 3,
    }
}

/// Law: `on_started` is invoked exactly once, and strictly before every
/// `process` call. In the trace of any started pool, `Started` stands at
/// index 0 and nowhere else, and every delivery stands after it.
pub proof fn lemma_started_once_before_process<T>(tr: Seq<Event<T>>, phase: Phase)
    requires
        trace_wf(tr, phase),
        !(phase is NotStarted),
    ensures
        tr.len() >= 1,
        tr[0] is Started,
        forall|i: int| 0 <= i < tr.len() ==> ((#[trigger] tr[i]) is Started <==> i == 0),
        forall|i: int| 0 <= i < tr.len() && (#[trigger] tr[i]) is Process ==> 0 < i,
{
}

/// Law: `on_finished` is invoked exactly once, and strictly after the last
/// `on_completed` report. In the trace of a drained pool, `Finished` stands
/// at the last index and nowhere else, and every completion report stands
/// before it.
pub proof fn lemma_finished_once_after_completed<T>(tr: Seq<Event<T>>)
    requires
        trace_wf(tr, Phase::Drained),
    ensures
        tr.len() >= 2,
        tr[tr.len() - 1] is Finished,
        forall|i: int|
            0 <= i < tr.len() ==> ((#[trigger] tr[i]) is Finished <==> i == tr.len() - 1),
        forall|i: int| 0 <= i < tr.len() && (#[trigger] tr[i]) is Completed ==> i < tr.len() - 1,
{
}

/// Law: every delivery is reported exactly once: each `process` invocation
/// is followed immediately by the `on_completed` report for the same item,
/// whatever the outcome; each report stands for the one delivery just
/// before it; and no report carries the reserved `Cancelled` outcome.
pub proof fn lemma_delivery_reported<T>(tr: Seq<Event<T>>, i: int)
    requires
        paired(tr),
        0 <= i < tr.len(),
        tr[i] is Process,
    ensures
        i + 1 < tr.len(),
        tr[i + 1] is Completed,
        tr[i + 1]->Completed_item == tr[i]->Process_item,
        forall|j: int|
            0 <= j < tr.len() && (#[trigger] tr[j]) is Completed ==> tr[j - 1] is Process
                && tr[j - 1]->Process_item == tr[j]->Completed_item && !(tr[j]->Completed_outcome
                is Cancelled),
{
}

/// The worker pool. All fields are a faithful model of the pool's state;
/// `trace` is the ghost record of the delegate invocations made so far.
pub struct Consumer<T> {
    pub options: ConsumerOptions,
    pub queue: TaskQueue<T>,
    pub phase: Phase,
    pub active_workers: usize,
    /// How many workers exited because `on_completed` returned `false`.
    pub early_stops: usize,
    pub trace: Ghost<Seq<Event<T>>>,
}

impl<T> Consumer<T> {
    /// The pool's invariant: the trace has the shape its phase dictates,
    /// every delivery is reported, the queue is closed exactly from
    /// `complete()` on, and the worker accounting matches the phase.
    pub open spec fn wf(self) -> bool {
        &&& trace_wf(self.trace@, self.phase)
        &&& paired(self.trace@)
        &&& (self.queue.closed <==> (self.phase is Completing || self.phase is Drained))
        &&& (self.phase is NotStarted ==> self.active_workers == 0)
        &&& ((self.phase is Running || self.phase is Completing) ==> self.active_workers
            == self.options.worker_count && self.options.worker_count >= 1)
        &&& (self.phase is Drained ==> self.active_workers == 0)
        &&& (!(self.phase is Drained) ==> self.early_stops == 0)
        &&& self.early_stops <= self.options.worker_count
    }

    /// A fresh pool with the default options.
    pub fn new() -> (c: Consumer<T>)
        ensures
            c.wf(),
            c.phase is NotStarted,
            c.queue.items@ == Seq::<T>::empty(),
            c.trace@ == Seq::<Event<T>>::empty(),
            c.options.worker_count == 1,
            c.options.queue_capacity is None,
    {
        Consumer::with_options(ConsumerOptions::new())
    }

    /// A fresh pool with the given options.
    pub fn with_options(options: ConsumerOptions) -> (c: Consumer<T>)
        ensures
            c.wf(),
            c.phase is NotStarted,
            c.queue.items@ == Seq::<T>::empty(),
            c.trace@ == Seq::<Event<T>>::empty(),
            c.options == options,
    {
        Consumer {
            options,
            queue: TaskQueue::new(),
            phase: Phase::NotStarted,
            active_workers: 0,
            early_stops: 0,
            trace: Ghost(Seq::empty()),
        }
    }

    /// How many workers the pool is configured with.
    pub fn consumers(&self) -> (n: usize)
        ensures
            n == self.options.worker_count,
    {
        self.options.worker_count
    }

    /// Whether the queue bound, if one is configured, is reached.
    pub open spec fn at_capacity(self) -> bool {
        self.options.queue_capacity matches Some(cap) && self.queue.items@.len() >= cap
    }

    /// Starts the pool: spawns the configured workers and invokes
    /// `on_started` exactly once, before any `process` call can happen.
    /// Exactly the first call on a pool with a positive worker count
    /// succeeds: a later call fails with `AlreadyStarted`, a zero worker
    /// count with `NoWorkers`, both leaving the pool unchanged.
    pub fn start<D: TaskDelegation<T>>(&mut self, delegate: &mut D) -> (r: Result<
        (),
        StartError,
    >)
        requires
            old(self).wf(),
        ensures
            final(self).wf(),
            phase_rank(final(self).phase) >= phase_rank(old(self).phase),
            final(self).options == old(self).options,
            final(self).queue == old(self).queue,
            !(old(self).phase is NotStarted) ==> r == Err::<(), StartError>(
                StartError::AlreadyStarted,
            ) && *final(self) == *old(self),
            old(self).phase is NotStarted && old(self).options.worker_count == 0 ==> r == Err::<
                (),
                StartError,
            >(StartError::NoWorkers) && *final(self) == *old(self),
            old(self).phase is NotStarted && old(self).options.worker_count >= 1 ==> {
                &&& r == Ok::<(), StartError>(())
                &&& final(self).phase is Running
                &&& final(self).trace@ == old(self).trace@.push(Event::<T>::Started)
                &&& final(self).active_workers == old(self).options.worker_count
            },
    {
        match self.phase {
            Phase::NotStarted => {
                if self.options.worker_count == 0 {
                    Err(StartError::NoWorkers)
                } else {
                    self.phase = Phase::Running;
                    self.active_workers = self.options.worker_count;
                    self.trace = Ghost(self.trace@.push(Event::Started));
                    delegate.on_started(self.options.worker_count);
                    Ok(())
                }
            },
            _ => Err(StartError::AlreadyStarted),
        }
    }

    /// Adds an item at the tail of the queue. Thread-safe in a concurrent
    /// host; callable before and after `start`. Fails with `QueueClosed`,
    /// leaving the pool unchanged, exactly when `complete()` was already
    /// called, and with `QueueFull` when a configured queue bound is
    /// reached.
    pub fn enqueue(&mut self, item: T) -> (r: Result<(), QueueError>)
        requires
            old(self).wf(),
        ensures
            final(self).wf(),
            final(self).options == old(self).options,
            final(self).phase == old(self).phase,
            final(self).trace@ == old(self).trace@,
            old(self).queue.closed ==> r == Err::<(), QueueError>(QueueError::QueueClosed)
                && *final(self) == *old(self),
            !old(self).queue.closed && old(self).at_capacity() ==> r == Err::<(), QueueError>(
                QueueError::QueueFull,
            ) && *final(self) == *old(self),
            !old(self).queue.closed && !old(self).at_capacity() ==> {
                &&& r == Ok::<(), QueueError>(())
                &&& final(self).queue.items@ == old(self).queue.items@.push(item)
                &&& !final(self).queue.closed
            },
    {
        if self.queue.is_closed() {
            Err(QueueError::QueueClosed)
        } else {
            let full = match self.options.queue_capacity {
                Some(cap) => self.queue.len() >= cap,
                None => false,
            };
            if full {
                Err(QueueError::QueueFull)
            } else {
                self.queue.enqueue(item)
            }
        }
    }

    /// Signals that no further items will be enqueued; does not block.
    /// Items already queued stay and will still be delivered.
    pub fn complete(&mut self)
        requires
            old(self).wf(),
            old(self).phase is Running || old(self).phase is Completing,
        ensures
            final(self).wf(),
            final(self).phase is Completing,
            phase_rank(final(self).phase) >= phase_rank(old(self).phase),
            final(self).queue.closed,
            final(self).queue.items@ == old(self).queue.items@,
            final(self).trace@ == old(self).trace@,
            final(self).options == old(self).options,
            final(self).active_workers == old(self).active_workers,
    {
        self.queue.complete();
        self.phase = Phase::Completing;
    }

    /// Blocks the caller until every worker has observed queue exhaustion
    /// (or stopped early) and exited, then invokes `on_finished` exactly
    /// once. Requires `complete()` to have been called first: otherwise the
    /// workers could never observe exhaustion. On return, the items
    /// delivered to `process` beyond those already delivered are exactly
    /// the front of the queue as it stood, once each and in queue order;
    /// items are left undelivered only if every worker stopped early; and
    /// the trace ends with the one `Finished` event.
    pub fn wait<D: TaskDelegation<T>>(&mut self, delegate: &mut D)
        requires
            old(self).wf(),
            old(self).phase is Completing,
        ensures
            final(self).wf(),
            final(self).phase is Drained,
            phase_rank(final(self).phase) >= phase_rank(old(self).phase),
            final(self).options == old(self).options,
            final(self).active_workers == 0,
            old(self).trace@.is_prefix_of(final(self).trace@),
            processed_of(old(self).trace@).is_prefix_of(processed_of(final(self).trace@)),
            old(self).queue.items@ == processed_of(final(self).trace@).skip(
                processed_of(old(self).trace@).len() as int,
            ) + final(self).queue.items@,
            final(self).queue.items@.len() > 0 ==> final(self).early_stops == old(
                self,
            ).options.worker_count,
            D::always_resumes() ==> final(self).queue.items@.len() == 0,
            final(self).trace@.len() > 0 && final(self).trace@.last() is Finished,
    {
        let ghost t0 = self.trace@;
        let ghost q0 = self.queue.items@;
        let ghost opts0 = self.options;
        let ghost mut delivered: Seq<T> = Seq::empty();
        proof {
            assert(processed_of(t0) + delivered =~= processed_of(t0));
            assert(delivered + q0 =~= q0);
            assert(t0.take(t0.len() as int) =~= t0);
        }
        let wc = self.options.worker_count;
        let mut w: usize = 0;
        while w < wc
            invariant
                w <= wc,
                wc == opts0.worker_count,
                wc >= 1,
                self.options == opts0,
                self.phase is Completing,
                self.queue.closed,
                trace_wf(self.trace@, self.phase),
                paired(self.trace@),
                t0.is_prefix_of(self.trace@),
                processed_of(self.trace@) == processed_of(t0) + delivered,
                q0 == delivered + self.queue.items@,
                self.queue.items@.len() > 0 ==> self.early_stops == w,
                self.early_stops <= w,
                self.active_workers == wc - w,
                D::always_resumes() && w > 0 ==> self.queue.items@.len() == 0,
            decreases wc - w,
        {
            // One worker's loop: pull items until the sentinel or an early stop.
            loop
                invariant_except_break
                    self.queue.items@.len() > 0 ==> self.early_stops == w,
                    self.early_stops <= w,
                invariant
                    w < wc,
                    wc == opts0.worker_count,
                    self.options == opts0,
                    self.phase is Completing,
                    self.queue.closed,
                    trace_wf(self.trace@, self.phase),
                    paired(self.trace@),
                    t0.is_prefix_of(self.trace@),
                    processed_of(self.trace@) == processed_of(t0) + delivered,
                    q0 == delivered + self.queue.items@,
                    self.active_workers == wc - w,
                ensures
                    self.queue.items@.len() > 0 ==> self.early_stops == w + 1,
                    self.early_stops <= w + 1,
                    D::always_resumes() ==> self.queue.items@.len() == 0,
                decreases self.queue.items@.len(),
            {
                match self.queue.dequeue() {
                    DequeueSignal::NoMoreWork => {
                        // The queue is completed and empty: natural exit.
                        break;
                    },
                    DequeueSignal::Item(item) => {
                        let ghost tr1 = self.trace@;
                        self.trace = Ghost(tr1.push(Event::Process { item }));
                        let raw = delegate.process(&item);
                        let outcome = classify(&raw);
                        let resume = delegate.on_completed(&item, &outcome);
                        let ghost tr2 = self.trace@;
                        self.trace = Ghost(tr2.push(Event::Completed { item, outcome, resume }));
                        proof {
                            lemma_processed_push(tr1, Event::Process { item });
                            lemma_processed_push(tr2, Event::Completed { item, outcome, resume });
                            lemma_prefix_push(t0, tr1, Event::Process { item });
                            lemma_prefix_push(t0, tr2, Event::Completed { item, outcome, resume });
                            delivered = delivered.push(item);
                            assert(processed_of(self.trace@) =~= processed_of(t0) + delivered);
                            assert(q0 =~= delivered + self.queue.items@);
                            assert forall|i: int|
                                0 <= i < self.trace@.len() && (#[trigger] self.trace@[i])
                                    is Process implies {
                                &&& i + 1 < self.trace@.len()
                                &&& self.trace@[i + 1] is Completed
                                &&& self.trace@[i + 1]->Completed_item
                                    == self.trace@[i]->Process_item
                            } by {
                                if i < tr1.len() {
                                    assert(self.trace@[i] == tr1[i]);
                                    assert(tr1[i + 1] is Completed && tr1[i + 1]->Completed_item
                                        == tr1[i]->Process_item);
                                    assert(self.trace@[i + 1] == tr1[i + 1]);
                                }
                            }
                            assert(!(outcome is Cancelled));
                            assert forall|i: int|
                                0 <= i < self.trace@.len() && (#[trigger] self.trace@[i])
                                    is Completed implies {
                                &&& 0 < i
                                &&& self.trace@[i - 1] is Process
                                &&& self.trace@[i - 1]->Process_item
                                    == self.trace@[i]->Completed_item
                                &&& !(self.trace@[i]->Completed_outcome is Cancelled)
                            } by {
                                if i < tr1.len() {
                                    assert(self.trace@[i] == tr1[i]);
                                    assert(tr1[i - 1] is Process && tr1[i - 1]->Process_item
                                        == tr1[i]->Completed_item);
                                    assert(self.trace@[i - 1] == tr1[i - 1]);
                                }
                            }
                            assert(paired(self.trace@));
                            assert forall|i: int| 1 <= i < self.trace@.len() implies ((
                            #[trigger] self.trace@[i]) is Process || self.trace@[i]
                                is Completed) by {
                                if i < tr1.len() {
                                    assert(self.trace@[i] == tr1[i]);
                                }
                            }
                            assert(trace_wf(self.trace@, self.phase));
                        }
                        if !resume {
                            // This worker stops; others keep draining.
                            self.early_stops = self.early_stops + 1;
                            break;
                        }
                    },
                }
            }
            self.active_workers = self.active_workers - 1;
            w = w + 1;
        }
        self.phase = Phase::Drained;
        delegate.on_finished();
        let ghost tr3 = self.trace@;
        self.trace = Ghost(tr3.push(Event::Finished));
        proof {
            lemma_processed_push(tr3, Event::<T>::Finished);
            lemma_prefix_push(t0, tr3, Event::<T>::Finished);
            assert forall|i: int|
                0 <= i < self.trace@.len() && (#[trigger] self.trace@[i]) is Process implies {
                &&& i + 1 < self.trace@.len()
                &&& self.trace@[i + 1] is Completed
                &&& self.trace@[i + 1]->Completed_item == self.trace@[i]->Process_item
            } by {
                if i < tr3.len() {
                    assert(self.trace@[i] == tr3[i]);
                    assert(tr3[i + 1] is Completed && tr3[i + 1]->Completed_item
                        == tr3[i]->Process_item);
                    assert(self.trace@[i + 1] == tr3[i + 1]);
                }
            }
            assert forall|i: int|
                0 <= i < self.trace@.len() && (#[trigger] self.trace@[i]) is Completed implies {
                &&& 0 < i
                &&& self.trace@[i - 1] is Process
                &&& self.trace@[i - 1]->Process_item == self.trace@[i]->Completed_item
                &&& !(self.trace@[i]->Completed_outcome is Cancelled)
            } by {
                if i < tr3.len() {
                    assert(self.trace@[i] == tr3[i]);
                    assert(tr3[i - 1] is Process && tr3[i - 1]->Process_item
                        == tr3[i]->Completed_item);
                    assert(self.trace@[i - 1] == tr3[i - 1]);
                }
            }
            assert(paired(self.trace@));
            assert forall|i: int| 1 <= i < self.trace@.len() - 1 implies ((
            #[trigger] self.trace@[i]) is Process || self.trace@[i] is Completed) by {
                assert(self.trace@[i] == tr3[i]);
            }
            assert(trace_wf(self.trace@, self.phase));
            assert(processed_of(self.trace@).skip(processed_of(t0).len() as int) =~= delivered);
            assert((processed_of(t0) + delivered).take(processed_of(t0).len() as int)
                =~= processed_of(t0));
        }
    }
}

} // verus!
