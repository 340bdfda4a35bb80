//! Work that any thread hands to the main thread, now or after a delay.

use vstd::prelude::*;

verus! {

/// The earliest time at which a delayed task may run: `delay` after `enqueued_at`, both
/// in the ticks of the caller's monotonic clock.
#[derive(Clone, Copy, Debug, PartialEq, Eq, Structural)]
pub struct Deadline {
    pub enqueued_at: u64,
    pub delay: u64,
}

/// Work that waits for the main thread. The queue owns it from the moment it is put in
/// until it is handed out.
#[derive(Debug)]
pub struct MainThreadTask<T> {
    pub op: T,
    /// `None` for a task that runs at the next drain.
    pub not_before: Option<Deadline>,
}

/// The queue of work for the main thread, in the order in which it was put in. Any
/// thread may put work in; the main thread alone takes it out, once per tick of the
/// host. The queue owns no thread and never waits.
#[derive(Debug)]
pub struct TaskQueue<T> {
    pub tasks: Vec<MainThreadTask<T>>,
}

/// Where failures of tasks end up. A task that fails is never dropped in silence: its
/// message is kept here, in the order of failing, until somebody reads it.
#[derive(Debug)]
pub struct DiagnosticSink {
    pub failures: Vec<String>,
}

impl DiagnosticSink {
    pub fn new() -> (sink: DiagnosticSink)
        ensures
            sink.failures@.len() == 0,
    {
        DiagnosticSink { failures: Vec::new() }
    }

    /// Takes note of how a task ended. A failure is kept; a success leaves no trace.
    pub fn record(&mut self, outcome: Result<(), String>)
        ensures
            match outcome {
                Ok(_) => final(self).failures@ == old(self).failures@,
                Err(message) => final(self).failures@ == old(self).failures@.push(message),
            },
    {
        match outcome {
            Ok(_) => {},
            Err(message) => {
                self.failures.push(message);
            },
        }
    }
}

impl Deadline {
    /// Whether the delay has passed at `now`. A clock that reads less than at the time
    /// of enqueueing has not passed it.
    pub open spec fn spec_has_passed(self, now: u64) -> bool {
        now >= self.enqueued_at && now - self.enqueued_at >= self.delay
    }

    #[verifier::when_used_as_spec(spec_has_passed)]
    pub fn has_passed(self, now: u64) -> (b: bool)
        ensures
            b == self.spec_has_passed(now),
    {
        now >= self.enqueued_at && now - self.enqueued_at >= self.delay
    }
}

impl<T> MainThreadTask<T> {
    /// Whether the task may run at `now`.
    pub open spec fn spec_is_due(self, now: u64) -> bool {
        match self.not_before {
            None => true,
            Some(deadline) => deadline.spec_has_passed(now),
        }
    }

    pub fn is_due(&self, now: u64) -> (b: bool)
        ensures
            b == self.spec_is_due(now),
    {
        match self.not_before {
            None => true,
            Some(deadline) => deadline.has_passed(now),
        }
    }
}

/// The work of the tasks that are due at `now`, in queue order.
pub open spec fn due_ops<T>(tasks: Seq<MainThreadTask<T>>, now: u64) -> Seq<T>
    decreases tasks.len(),
{
    if tasks.len() == 0 {
        Seq::empty()
    } else if tasks.last().spec_is_due(now) {
        due_ops(tasks.drop_last(), now).push(tasks.last().op)
    } else {
        due_ops(tasks.drop_last(), now)
    }
}

/// The tasks that are not due at `now`, in queue order.
pub open spec fn waiting_tasks<T>(tasks: Seq<MainThreadTask<T>>, now: u64) -> Seq<
    MainThreadTask<T>,
>
    decreases tasks.len(),
{
    if tasks.len() == 0 {
        Seq::empty()
    } else if tasks.last().spec_is_due(now) {
        waiting_tasks(tasks.drop_last(), now)
    } else {
        waiting_tasks(tasks.drop_last(), now).push(tasks.last())
    }
}

impl<T> View for TaskQueue<T> {
    type V = Seq<MainThreadTask<T>>;

    open spec fn view(&self) -> Seq<MainThreadTask<T>> {
        self.tasks@
    }
}

impl<T> TaskQueue<T> {
    pub fn new() -> (queue: TaskQueue<T>)
        ensures
            queue@.len() == 0,
    {
        TaskQueue { tasks: Vec::new() }
    }

    pub fn len(&self) -> (n: usize)
        ensures
            n == self@.len(),
    {
        self.tasks.len()
    }

    /// Puts work at the end of the queue, to run at the next drain.
    pub fn enqueue_asap(&mut self, op: T)
        ensures
            final(self)@ == old(self)@.push(MainThreadTask { op, not_before: None }),
    {
        self.tasks.push(MainThreadTask { op, not_before: None });
    }

    /// Puts work at the end of the queue, to run at the first drain at which `delay` has
    /// passed since `now`.
    pub fn enqueue_after(&mut self, op: T, now: u64, delay: u64)
        ensures
            final(self)@ == old(self)@.push(
                MainThreadTask { op, not_before: Some(Deadline { enqueued_at: now, delay }) },
            ),
    {
        self.tasks.push(
            MainThreadTask { op, not_before: Some(Deadline { enqueued_at: now, delay }) },
        );
    }

    /// Takes out every task that is due at `now` and hands out its work, in the order in
    /// which the tasks were put in. The tasks that are not due stay, in their order.
    pub fn drain(&mut self, now: u64) -> (ops: Vec<T>)
        ensures
            ops@ == due_ops(old(self)@, now),
            final(self)@ == waiting_tasks(old(self)@, now),
    {
        let mut pending: Vec<MainThreadTask<T>> = Vec::new();
        std::mem::swap(&mut self.tasks, &mut pending);
        let ghost all = pending@;
        let ghost mut done: int = 0;
        let mut ops: Vec<T> = Vec::new();
        assert(all.take(0) =~= Seq::empty());
        assert(all.skip(0) =~= all);
        while pending.len() > 0
            invariant
                0 <= done <= all.len(),
                pending@ == all.skip(done),
                ops@ == due_ops(all.take(done), now),
                self.tasks@ == waiting_tasks(all.take(done), now),
            decreases pending@.len(),
        {
            let task = pending.remove(0);
            proof {
                assert(task == all[done]);
                assert(pending@ =~= all.skip(done + 1));
                assert(all.take(done + 1).drop_last() =~= all.take(done));
                assert(all.take(done + 1).last() == all[done]);
                done = done + 1;
            }
            if task.is_due(now) {
                ops.push(task.op);
            } else {
                self.tasks.push(task);
            }
        }
        assert(all.take(done) =~= all);
        ops
    }
}

/// Work that is put in to run as soon as possible runs at the very next drain, whatever
/// the time, after all that was due before it, and does not stay in the queue.
pub proof fn lemma_asap_task_runs_at_next_drain<T>(tasks: Seq<MainThreadTask<T>>, op: T, now: u64)
    ensures
        due_ops(tasks.push(MainThreadTask { op, not_before: None }), now) == due_ops(
            tasks,
            now,
        ).push(op),
        waiting_tasks(tasks.push(MainThreadTask { op, not_before: None }), now) == waiting_tasks(
            tasks,
            now,
        ),
{
    let task = MainThreadTask { op, not_before: None };
    assert(tasks.push(task).drop_last() =~= tasks);
}

/// Two pieces of work that are put in to run as soon as possible, one after the other,
/// run at the next drain in that order.
pub proof fn lemma_asap_tasks_run_in_enqueue_order<T>(
    tasks: Seq<MainThreadTask<T>>,
    first: T,
    second: T,
    now: u64,
)
    ensures
        due_ops(
            tasks.push(MainThreadTask { op: first, not_before: None }).push(
                MainThreadTask { op: second, not_before: None },
            ),
            now,
        ) == due_ops(tasks, now).push(first).push(second),
{
    lemma_asap_task_runs_at_next_drain(tasks, first, now);
    lemma_asap_task_runs_at_next_drain(
        tasks.push(MainThreadTask { op: first, not_before: None }),
        second,
        now,
    );
}

/// Delayed work does not run before its delay has passed: a drain at a time less than
/// `delay` after `enqueued_at` hands out what it would hand out without the task, and
/// the task stays last in the queue.
pub proof fn lemma_delayed_task_waits<T>(
    tasks: Seq<MainThreadTask<T>>,
    op: T,
    enqueued_at: u64,
    delay: u64,
    now: u64,
)
    requires
        now < enqueued_at + delay,
    ensures
        due_ops(
            tasks.push(
                MainThreadTask { op, not_before: Some(Deadline { enqueued_at, delay }) },
            ),
            now,
        ) == due_ops(tasks, now),
        waiting_tasks(
            tasks.push(
                MainThreadTask { op, not_before: Some(Deadline { enqueued_at, delay }) },
            ),
            now,
        ) == waiting_tasks(tasks, now).push(
            MainThreadTask { op, not_before: Some(Deadline { enqueued_at, delay }) },
        ),
{
    let task = MainThreadTask { op, not_before: Some(Deadline { enqueued_at, delay }) };
    assert(tasks.push(task).drop_last() =~= tasks);
}

/// Delayed work runs at the first drain at or after its time, after all that was due
/// before it.
pub proof fn lemma_delayed_task_runs_when_due<T>(
    tasks: Seq<MainThreadTask<T>>,
    op: T,
    enqueued_at: u64,
    delay: u64,
    now: u64,
)
    requires
        now >= enqueued_at + delay,
    ensures
        due_ops(
            tasks.push(
                MainThreadTask { op, not_before: Some(Deadline { enqueued_at, delay }) },
            ),
            now,
        ) == due_ops(tasks, now).push(op),
{
    let task = MainThreadTask { op, not_before: Some(Deadline { enqueued_at, delay }) };
    assert(tasks.push(task).drop_last() =~= tasks);
}

/// A drain loses nothing and makes nothing up: what it hands out and what it leaves are
/// together as many as the queue held.
pub proof fn lemma_drain_partitions<T>(tasks: Seq<MainThreadTask<T>>, now: u64)
    ensures
        due_ops(tasks, now).len() + waiting_tasks(tasks, now).len() == tasks.len(),
        forall|i: int|
            0 <= i < waiting_tasks(tasks, now).len() ==> !(#[trigger] waiting_tasks(
                tasks,
                now,
            )[i]).spec_is_due(now),
    decreases tasks.len(),
{
    if tasks.len() > 0 {
        lemma_drain_partitions(tasks.drop_last(), now);
    }
}

} // verus!
