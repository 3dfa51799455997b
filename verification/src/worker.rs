//! The worker: an unbounded FIFO of tasks, an admission counter that never
//! undercounts a promised position, and the single-concurrency dequeue
//! discipline.
//!
//! The observable queue size is `queued + tentative + in-flight`: a caller
//! that was told its position occupies a tentative slot until its task is
//! physically pushed, and the task being processed still counts until its
//! result is delivered.

use vstd::prelude::*;

use crate::task::Task;

verus! {

/// `deadqueue::unlimited::Queue` declared for Verus: an unbounded
/// multi-producer FIFO.
#[verifier::external_type_specification]
#[verifier::external_body]
#[verifier::reject_recursive_types(T)]
pub struct ExQueue<T>(deadqueue::unlimited::Queue<T>);

/// The tasks a queue holds, oldest first.
pub uninterp spec fn queue_items(q: deadqueue::unlimited::Queue<Task>) -> Seq<Task>;

/// Relies on `deadqueue::unlimited::Queue::new`: a new queue holds nothing.
#[verifier::external_body]
fn queue_new() -> (q: deadqueue::unlimited::Queue<Task>)
    ensures
        queue_items(q) == Seq::<Task>::empty(),
{
    deadqueue::unlimited::Queue::new()
}

/// Relies on `deadqueue::unlimited::Queue::push`: appends the item behind
/// all currently queued items; never blocks and never fails.
#[verifier::external_body]
fn queue_push(q: &mut deadqueue::unlimited::Queue<Task>, item: Task)
    ensures
        queue_items(*final(q)) == queue_items(*old(q)).push(item),
{
    q.push(item)
}

/// Relies on `deadqueue::unlimited::Queue::len`: the number of items
/// currently stored.
#[verifier::external_body]
fn queue_len(q: &deadqueue::unlimited::Queue<Task>) -> (n: usize)
    ensures
        n == queue_items(*q).len(),
{
    q.len()
}

/// Relies on `deadqueue::unlimited::Queue::try_pop`: removes and returns
/// the oldest item, or returns nothing from an empty queue.
#[verifier::external_body]
fn queue_try_pop(q: &mut deadqueue::unlimited::Queue<Task>) -> (r: Option<Task>)
    ensures
        queue_items(*old(q)).len() == 0 ==> r is None && queue_items(*final(q)) == queue_items(
            *old(q),
        ),
        queue_items(*old(q)).len() > 0 ==> r == Some(queue_items(*old(q))[0]) && queue_items(
            *final(q),
        ) == queue_items(*old(q)).drop_first(),
{
    q.try_pop()
}

/// The abstract state of a worker: the queued tasks oldest first, the count
/// of tentatively admitted tasks not yet queued, and whether a task is in
/// flight.
pub struct WorkerView {
    /// Queued tasks, oldest first.
    pub items: Seq<Task>,
    /// Tasks a caller was already given a position for but that are not yet
    /// physically queued.
    pub tentative: nat,
    /// Whether the worker is processing a task right now.
    pub busy: bool,
}

impl WorkerView {
    /// The number of in-flight tasks: one while busy, else zero.
    pub open spec fn in_flight(self) -> int {
        if self.busy {
            1
        } else {
            0
        }
    }

    /// The externally observed queue size: queued plus tentative plus
    /// in-flight.
    pub open spec fn size(self) -> int {
        self.items.len() + self.tentative + self.in_flight()
    }

    /// The machine bound every reachable worker state satisfies: the
    /// observable size fits the platform's word.
    pub open spec fn wf(self) -> bool {
        self.size() <= usize::MAX
    }

    /// The state of a freshly created worker.
    pub open spec fn initial(self) -> bool {
        self.items == Seq::<Task>::empty() && self.tentative == 0 && !self.busy
    }
}

/// One abstract worker operation.
pub enum WorkerOp {
    /// A caller is told its position and tentatively admitted.
    Reserve,
    /// A tentatively admitted task is physically queued.
    Enqueue(Task),
    /// The worker takes the oldest queued task and becomes busy.
    DequeueStart,
    /// The in-flight task's result has been delivered; the worker is idle.
    Finish,
}

/// When an operation is admissible in a state.
pub open spec fn spec_valid(v: WorkerView, op: WorkerOp) -> bool {
    match op {
        WorkerOp::Reserve => true,
        WorkerOp::Enqueue(t) => v.tentative >= 1,
        WorkerOp::DequeueStart => !v.busy && v.items.len() > 0,
        WorkerOp::Finish => v.busy,
    }
}

/// The state after one operation.
pub open spec fn spec_step(v: WorkerView, op: WorkerOp) -> WorkerView {
    match op {
        WorkerOp::Reserve => WorkerView { items: v.items, tentative: v.tentative + 1, busy: v.busy },
        WorkerOp::Enqueue(t) => WorkerView {
            items: v.items.push(t),
            tentative: (v.tentative - 1) as nat,
            busy: v.busy,
        },
        WorkerOp::DequeueStart => WorkerView {
            items: v.items.drop_first(),
            tentative: v.tentative,
            busy: true,
        },
        WorkerOp::Finish => WorkerView { items: v.items, tentative: v.tentative, busy: false },
    }
}

/// A worker that processes download tasks one at a time, in arrival order.
pub struct Worker {
    /// Queue of tasks to be processed.
    queue: deadqueue::unlimited::Queue<Task>,
    /// Counter of tentatively admitted tasks not yet in the queue.
    tentative: usize,
    /// Whether the worker is currently processing a task.
    is_busy: bool,
}

impl View for Worker {
    type V = WorkerView;

    closed spec fn view(&self) -> WorkerView {
        WorkerView {
            items: queue_items(self.queue),
            tentative: self.tentative as nat,
            busy: self.is_busy,
        }
    }
}

/// What the worker does next, decided at a loop boundary.
pub enum WorkerAction {
    /// Cancellation was observed: stop; nothing further is started.
    Stop,
    /// Process the given task, oldest in the queue, end to end.
    Run(Task),
    /// Nothing is queued: wait until a task arrives.
    Wait,
}

impl Worker {
    /// Create an idle worker with an empty queue.
    pub fn new() -> (r: Worker)
        ensures
            r@.initial(),
            r@.wf(),
    {
        Worker { queue: queue_new(), tentative: 0, is_busy: false }
    }

    /// The observed queue size, then `val` more tasks tentatively admitted.
    fn fetch_add_queue_size(&mut self, val: usize) -> (n: usize)
        requires
            old(self)@.wf(),
            old(self)@.size() + val <= usize::MAX,
        ensures
            n == old(self)@.size(),
            final(self)@.items == old(self)@.items,
            final(self)@.tentative == old(self)@.tentative + val,
            final(self)@.busy == old(self)@.busy,
    {
        let qlen = queue_len(&self.queue);
        let busy_count: usize = if self.is_busy {
            1
        } else {
            0
        };
        let size = qlen + self.tentative + busy_count;
        self.tentative = self.tentative + val;
        size
    }

    /// The externally observed queue size: queued plus tentative plus
    /// in-flight. No side effect.
    pub fn queue_size(&self) -> (n: usize)
        requires
            self@.wf(),
        ensures
            n == self@.size(),
    {
        let qlen = queue_len(&self.queue);
        let busy_count: usize = if self.is_busy {
            1
        } else {
            0
        };
        qlen + self.tentative + busy_count
    }

    /// The observed queue size, tentatively admitting one new task: the
    /// caller is told this position and the count is raised by one in the
    /// same step, so no later observation undercounts the admission.
    pub fn tentative_enqueue(&mut self) -> (n: usize)
        requires
            old(self)@.wf(),
            old(self)@.size() + 1 <= usize::MAX,
        ensures
            n == old(self)@.size(),
            final(self)@ == spec_step(old(self)@, WorkerOp::Reserve),
            final(self)@.wf(),
    {
        self.fetch_add_queue_size(1)
    }

    /// Physically queue a tentatively admitted task, reconciling its
    /// reservation: the observed size does not change.
    pub fn push(&mut self, task: Task)
        requires
            old(self)@.wf(),
            old(self)@.tentative >= 1,
        ensures
            final(self)@ == spec_step(old(self)@, WorkerOp::Enqueue(task)),
            final(self)@.size() == old(self)@.size(),
            final(self)@.wf(),
    {
        self.tentative = self.tentative - 1;
        queue_push(&mut self.queue, task);
    }

    /// The worker's decision at a loop boundary, with cancellation checked
    /// first: on cancellation nothing is started and the queue is left as it
    /// is; otherwise the oldest queued task, if any, is taken and the worker
    /// becomes busy.
    pub fn next_action(&mut self, cancelled: bool) -> (r: WorkerAction)
        requires
            old(self)@.wf(),
            !old(self)@.busy,
        ensures
            cancelled ==> r is Stop && final(self)@ == old(self)@,
            !cancelled && old(self)@.items.len() == 0 ==> r is Wait && final(self)@ == old(self)@,
            !cancelled && old(self)@.items.len() > 0 ==> r == WorkerAction::Run(
                old(self)@.items[0],
            ) && final(self)@ == spec_step(old(self)@, WorkerOp::DequeueStart),
            final(self)@.wf(),
    {
        if cancelled {
            WorkerAction::Stop
        } else {
            match queue_try_pop(&mut self.queue) {
                Some(task) => {
                    self.is_busy = true;
                    WorkerAction::Run(task)
                },
                None => WorkerAction::Wait,
            }
        }
    }

    /// The in-flight task's result has been delivered: the worker is idle
    /// again and the observed size drops by one.
    pub fn task_finished(&mut self)
        requires
            old(self)@.wf(),
            old(self)@.busy,
        ensures
            final(self)@ == spec_step(old(self)@, WorkerOp::Finish),
            final(self)@.size() == old(self)@.size() - 1,
            final(self)@.wf(),
    {
        self.is_busy = false;
    }
}

/// The state after a sequence of operations.
pub open spec fn spec_run(v: WorkerView, ops: Seq<WorkerOp>) -> WorkerView
    decreases ops.len(),
{
    if ops.len() == 0 {
        v
    } else {
        spec_run(spec_step(v, ops[0]), ops.drop_first())
    }
}

/// Whether every operation of the sequence is admissible when its turn
/// comes.
pub open spec fn spec_valid_run(v: WorkerView, ops: Seq<WorkerOp>) -> bool
    decreases ops.len(),
{
    ops.len() == 0 || (spec_valid(v, ops[0]) && spec_valid_run(
        spec_step(v, ops[0]),
        ops.drop_first(),
    ))
}

/// The tasks physically enqueued over a sequence of operations, in order.
pub open spec fn spec_enqueued(ops: Seq<WorkerOp>) -> Seq<Task>
    decreases ops.len(),
{
    if ops.len() == 0 {
        Seq::<Task>::empty()
    } else {
        (match ops[0] {
            WorkerOp::Enqueue(t) => seq![t],
            _ => Seq::<Task>::empty(),
        }) + spec_enqueued(ops.drop_first())
    }
}

/// The tasks taken by the worker over a sequence of operations, in the
/// order it takes them.
pub open spec fn spec_dequeued(v: WorkerView, ops: Seq<WorkerOp>) -> Seq<Task>
    decreases ops.len(),
{
    if ops.len() == 0 {
        Seq::<Task>::empty()
    } else {
        (match ops[0] {
            WorkerOp::DequeueStart => seq![v.items[0]],
            _ => Seq::<Task>::empty(),
        }) + spec_dequeued(spec_step(v, ops[0]), ops.drop_first())
    }
}

/// The state after a sequence of whole admissions, each a reservation
/// followed by the push of one task.
pub open spec fn spec_after_enqueues(v: WorkerView, tasks: Seq<Task>) -> WorkerView
    decreases tasks.len(),
{
    if tasks.len() == 0 {
        v
    } else {
        spec_after_enqueues(
            spec_step(spec_step(v, WorkerOp::Reserve), WorkerOp::Enqueue(tasks[0])),
            tasks.drop_first(),
        )
    }
}

/// Every admission counts exactly once: a sequence of whole admissions
/// appends exactly its tasks to the queue, leaves the tentative counter and
/// the busy flag alone, and raises the observed size by exactly the number
/// of tasks admitted — reservations reconcile to one count per task, never
/// double-counted or dropped.
pub proof fn lemma_admission_exact_count(v: WorkerView, tasks: Seq<Task>)
    ensures
        spec_after_enqueues(v, tasks).items == v.items + tasks,
        spec_after_enqueues(v, tasks).tentative == v.tentative,
        spec_after_enqueues(v, tasks).busy == v.busy,
        spec_after_enqueues(v, tasks).size() == v.size() + tasks.len(),
    decreases tasks.len(),
{
    if tasks.len() == 0 {
        assert(v.items + tasks =~= v.items);
    } else {
        let v2 = spec_step(spec_step(v, WorkerOp::Reserve), WorkerOp::Enqueue(tasks[0]));
        lemma_admission_exact_count(v2, tasks.drop_first());
        assert(v2.items + tasks.drop_first() =~= v.items + tasks);
    }
}

/// N admissions into a fresh worker make `queue_size` report exactly N.
pub proof fn lemma_queue_size_counts_admissions(v: WorkerView, tasks: Seq<Task>)
    requires
        v.initial(),
    ensures
        spec_after_enqueues(v, tasks).size() == tasks.len(),
{
    lemma_admission_exact_count(v, tasks);
}

/// At most one task is in flight in any worker state.
pub proof fn lemma_at_most_one_in_flight(v: WorkerView)
    ensures
        0 <= v.in_flight() <= 1,
{
}

/// Work in flight is never abandoned: a busy worker can neither take
/// another task nor be re-entered; the only worker-side step out of the
/// busy state is the delivery of its result. Cancellation, checked only at
/// a loop boundary where the worker is idle, therefore always lets the
/// in-flight task run to completion.
pub proof fn lemma_in_flight_runs_to_completion(v: WorkerView)
    requires
        v.busy,
    ensures
        !spec_valid(v, WorkerOp::DequeueStart),
        spec_valid(v, WorkerOp::Finish),
{
}

/// While a task is in flight, taking a second one is not admissible: the
/// worker must finish before it can dequeue again.
pub proof fn lemma_busy_blocks_dequeue(v: WorkerView)
    requires
        spec_valid(v, WorkerOp::DequeueStart),
    ensures
        spec_step(v, WorkerOp::DequeueStart).in_flight() == 1,
        !spec_valid(spec_step(v, WorkerOp::DequeueStart), WorkerOp::DequeueStart),
{
}

/// Conservation along any admissible interleaving: what was dequeued so far
/// followed by what is still queued equals what was queued at the start
/// followed by what was enqueued — no task is lost, duplicated or
/// reordered.
pub proof fn lemma_fifo_conservation(v: WorkerView, ops: Seq<WorkerOp>)
    requires
        spec_valid_run(v, ops),
    ensures
        spec_dequeued(v, ops) + spec_run(v, ops).items == v.items + spec_enqueued(ops),
    decreases ops.len(),
{
    if ops.len() == 0 {
        assert(spec_dequeued(v, ops) + spec_run(v, ops).items =~= v.items);
        assert(v.items + spec_enqueued(ops) =~= v.items);
    } else {
        let v2 = spec_step(v, ops[0]);
        let rest = ops.drop_first();
        lemma_fifo_conservation(v2, rest);
        match ops[0] {
            WorkerOp::Reserve => {
                assert(spec_dequeued(v, ops) =~= spec_dequeued(v2, rest));
                assert(spec_enqueued(ops) =~= spec_enqueued(rest));
            },
            WorkerOp::Enqueue(t) => {
                assert(spec_dequeued(v, ops) =~= spec_dequeued(v2, rest));
                assert(spec_dequeued(v2, rest) + spec_run(v2, rest).items =~= v.items.push(t)
                    + spec_enqueued(rest));
                assert(v.items.push(t) + spec_enqueued(rest) =~= v.items + (seq![t]
                    + spec_enqueued(rest)));
                assert(spec_enqueued(ops) =~= seq![t] + spec_enqueued(rest));
            },
            WorkerOp::DequeueStart => {
                assert(spec_dequeued(v, ops) =~= seq![v.items[0]] + spec_dequeued(v2, rest));
                assert(spec_enqueued(ops) =~= spec_enqueued(rest));
                assert((seq![v.items[0]] + spec_dequeued(v2, rest)) + spec_run(v2, rest).items
                    =~= seq![v.items[0]] + (spec_dequeued(v2, rest) + spec_run(v2, rest).items));
                assert(seq![v.items[0]] + (v.items.drop_first() + spec_enqueued(rest))
                    =~= v.items + spec_enqueued(rest));
            },
            WorkerOp::Finish => {
                assert(spec_dequeued(v, ops) =~= spec_dequeued(v2, rest));
                assert(spec_enqueued(ops) =~= spec_enqueued(rest));
            },
        }
    }
}

/// First in, first out: starting from a fresh worker, the tasks the worker
/// has taken so far are exactly the first so-many enqueued tasks, in their
/// enqueue order — a serial worker therefore completes tasks in the order
/// they arrived.
pub proof fn lemma_fifo_order(v: WorkerView, ops: Seq<WorkerOp>)
    requires
        v.initial(),
        spec_valid_run(v, ops),
    ensures
        spec_dequeued(v, ops) == spec_enqueued(ops).take(spec_dequeued(v, ops).len() as int),
{
    lemma_fifo_conservation(v, ops);
    let deq = spec_dequeued(v, ops);
    let enq = spec_enqueued(ops);
    assert(v.items + enq =~= enq);
    assert(deq =~= enq.take(deq.len() as int));
}

/// `queue_size` has no side effect: any two results it can return for the
/// same worker state are the same value.
pub proof fn lemma_queue_size_idempotent(w: &Worker, n1: usize, n2: usize)
    requires
        Worker::queue_size.ensures((w,), n1),
        Worker::queue_size.ensures((w,), n2),
    ensures
        n1 == n2,
{
}

} // verus!
