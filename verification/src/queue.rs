use vstd::prelude::*;

use crate::runtime::{Probe, Task};

verus! {

#[verifier::external_type_specification]
#[verifier::external_body]
#[verifier::reject_recursive_types(T)]
pub struct ExInjector<T>(crossbeam_deque::Injector<T>);

#[verifier::external_type_specification]
#[verifier::external_body]
#[verifier::reject_recursive_types(T)]
pub struct ExLocalQueue<T>(crossbeam_deque::Worker<T>);

/// The tasks held by an injector queue, the next to be stolen first.
pub uninterp spec fn injector_tasks(queue: crossbeam_deque::Injector<Task>) -> Seq<Task>;

/// The tasks held by a worker queue, from its front index to its back
/// index, front first.
pub uninterp spec fn local_tasks(queue: crossbeam_deque::Worker<Task>) -> Seq<Task>;

/// Whether the worker queue was made by `Worker::new_fifo` (so `pop` takes
/// from the front) and no `Stealer` of it exists (so no other thread takes
/// tasks from it).
pub uninterp spec fn fifo_unshared(queue: crossbeam_deque::Worker<Task>) -> bool;

/// The outcome of taking the first task of `before`, leaving `after`:
/// `Empty` only from an empty queue; the first task; or, on a non-empty
/// queue, `Retry` with nothing taken.
pub open spec fn steal_step(before: Seq<Task>, probe: Probe, after: Seq<Task>) -> bool {
    match probe {
        Probe::Empty => before.len() == 0 && after == before,
        Probe::Found(task) => before.len() > 0 && task == before[0] && after == before.drop_first(),
        Probe::Retry => before.len() > 0 && after == before,
    }
}

/// The outcome of popping the first task of `before`, leaving `after`.
pub open spec fn pop_step(before: Seq<Task>, popped: Option<Task>, after: Seq<Task>) -> bool {
    match popped {
        None => before.len() == 0 && after == before,
        Some(task) => before.len() > 0 && task == before[0] && after == before.drop_first(),
    }
}

/// `Injector::push`: the task goes to the back of the queue.
///
/// The queue is reached through `&mut`, so no other thread touches it during
/// the call.
#[verifier::external_body]
pub(crate) fn injector_push(queue: &mut crossbeam_deque::Injector<Task>, task: Task)
    ensures
        injector_tasks(*final(queue)) == injector_tasks(*old(queue)).push(task),
{
    queue.push(task)
}

/// `Injector::steal`, with crossbeam's `Steal` told apart into `Probe`.
///
/// With the queue held through `&mut`, the source returns `Empty` exactly
/// when head and tail meet, that is when the queue holds nothing; otherwise
/// it takes the front task, or, when its weak compare-and-exchange fails
/// (which it may do spuriously), returns `Retry` with the queue untouched.
#[verifier::external_body]
pub(crate) fn injector_steal(queue: &mut crossbeam_deque::Injector<Task>) -> (probe: Probe)
    ensures
        steal_step(injector_tasks(*old(queue)), probe, injector_tasks(*final(queue))),
{
    match queue.steal() {
        crossbeam_deque::Steal::Empty => Probe::Empty,
        crossbeam_deque::Steal::Success(task) => Probe::Found(task),
        crossbeam_deque::Steal::Retry => Probe::Retry,
    }
}

/// `crossbeam_deque::Worker::new_fifo`: an empty first-in first-out queue,
/// of which no `Stealer` has been made yet.
#[verifier::external_body]
fn fifo_new() -> (queue: crossbeam_deque::Worker<Task>)
    ensures
        local_tasks(queue) == Seq::<Task>::empty(),
        fifo_unshared(queue),
{
    crossbeam_deque::Worker::new_fifo()
}

/// `crossbeam_deque::Worker::push`: the task is written at the back index.
/// Pushing makes no `Stealer` and keeps the flavour.
#[verifier::external_body]
fn fifo_push(queue: &mut crossbeam_deque::Worker<Task>, task: Task)
    requires
        fifo_unshared(*old(queue)),
    ensures
        local_tasks(*final(queue)) == local_tasks(*old(queue)).push(task),
        fifo_unshared(*final(queue)),
{
    queue.push(task)
}

/// `crossbeam_deque::Worker::pop` on a FIFO queue with no `Stealer`: the
/// front task, or `None` when the queue is empty. Popping makes no
/// `Stealer` and keeps the flavour.
#[verifier::external_body]
fn fifo_pop(queue: &mut crossbeam_deque::Worker<Task>) -> (popped: Option<Task>)
    requires
        fifo_unshared(*old(queue)),
    ensures
        pop_step(local_tasks(*old(queue)), popped, local_tasks(*final(queue))),
        fifo_unshared(*final(queue)),
{
    queue.pop()
}

/// `crossbeam_deque::Worker::len`: back index minus front index, the number
/// of tasks in a queue that no `Stealer` is taking from.
#[verifier::external_body]
fn fifo_len(queue: &crossbeam_deque::Worker<Task>) -> (n: usize)
    requires
        fifo_unshared(*queue),
    ensures
        n == local_tasks(*queue).len(),
{
    queue.len()
}

/// A worker's own first-in first-out queue of tasks.
///
/// The crossbeam queue sits in a private field, is made only by
/// `LocalQueue::new`, and is never asked for a `Stealer`: the owner of the
/// `LocalQueue` is the only one who reaches its tasks, so each call through
/// `&mut self` finds the queue as the previous call left it.
pub struct LocalQueue {
    inner: crossbeam_deque::Worker<Task>,
}

impl LocalQueue {
    /// The queue is a FIFO queue that no `Stealer` takes from; every
    /// `LocalQueue` is, since only `new` makes one and nothing here makes a
    /// `Stealer`.
    pub closed spec fn wf(self) -> bool {
        fifo_unshared(self.inner)
    }

    /// The tasks in the queue, the next to be popped first.
    pub closed spec fn tasks(self) -> Seq<Task> {
        local_tasks(self.inner)
    }

    /// An empty queue.
    pub fn new() -> (queue: LocalQueue)
        ensures
            queue.wf(),
            queue.tasks() == Seq::<Task>::empty(),
    {
        LocalQueue { inner: fifo_new() }
    }

    /// Put `task` at the back of the queue.
    pub(crate) fn push(&mut self, task: Task)
        requires
            old(self).wf(),
        ensures
            final(self).wf(),
            final(self).tasks() == old(self).tasks().push(task),
    {
        fifo_push(&mut self.inner, task)
    }

    /// Take the front task; `None`, with nothing changed, when the queue is
    /// empty.
    pub(crate) fn pop(&mut self) -> (popped: Option<Task>)
        requires
            old(self).wf(),
        ensures
            final(self).wf(),
            pop_step(old(self).tasks(), popped, final(self).tasks()),
    {
        fifo_pop(&mut self.inner)
    }

    /// The number of tasks in the queue.
    pub fn len(&self) -> (n: usize)
        requires
            self.wf(),
        ensures
            n == self.tasks().len(),
    {
        fifo_len(&self.inner)
    }

    /// Whether the queue holds no task.
    pub fn is_empty(&self) -> (empty: bool)
        requires
            self.wf(),
        ensures
            empty == (self.tasks().len() == 0),
    {
        self.len() == 0
    }
}

}
