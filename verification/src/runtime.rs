use vstd::prelude::*;

use crate::context::Context;
use crate::idle::{IdleWorkers, WorkerId};
use crate::queue::{
    injector_push, injector_steal, injector_tasks, steal_step, LocalQueue,
};
use crate::routine::RsRoutine;

verus! {

/// How a task ended: the value its closure returned, or the payload of the
/// panic that ended it. The library hands it on whole, without looking in.
#[verifier::external_body]
pub struct Completion {
    pub result: Result<(), Box<dyn std::any::Any + Send + 'static>>,
}

/// Why a running task handed control back to its worker.
pub enum RunOutcome {
    /// It yielded and wants to be resumed later.
    Yielded,
    /// It finished.
    Completed(Completion),
}

/// A routine scheduled on the runtime, with the outcome of its last run.
pub struct Task {
    pub routine: Box<RsRoutine>,
    pub outcome: Option<RunOutcome>,
}

/// The outcome of one attempt at finding a task.
pub enum Probe {
    /// A task was taken.
    Found(Task),
    /// A queue that holds tasks could not be taken from this time.
    Retry,
    /// No queue held a task.
    Empty,
}

impl Task {
    /// A task that has not run yet.
    pub fn new(routine: Box<RsRoutine>) -> (task: Self)
        ensures
            task.routine == routine,
            task.outcome is None,
    {
        Task { routine, outcome: None }
    }
}

/// The state shared by all workers: the queue new tasks are injected into,
/// the registry of parked workers, and the addresses a new routine starts
/// through.
pub struct Runtime {
    pub incoming_queue: crossbeam_deque::Injector<Task>,
    pub idle_workers: IdleWorkers,
    pub bootstrap_addr: usize,
    pub entry_addr: usize,
}

impl Runtime {
    /// The tasks waiting in the injector queue.
    pub open spec fn incoming(self) -> Seq<Task> {
        injector_tasks(self.incoming_queue)
    }

    /// The idle-worker registry is consistent.
    pub open spec fn wf(self) -> bool {
        self.idle_workers.wf()
    }

    /// A runtime over `incoming_queue` for `worker_count` workers, none of
    /// them idle yet.
    pub fn new(
        incoming_queue: crossbeam_deque::Injector<Task>,
        worker_count: usize,
        bootstrap_addr: usize,
        entry_addr: usize,
    ) -> (runtime: Self)
        ensures
            runtime.wf(),
            runtime.incoming() == injector_tasks(incoming_queue),
            runtime.idle_workers.idle() == Seq::<WorkerId>::empty(),
            runtime.idle_workers.flags() == Seq::new(worker_count as nat, |i: int| false),
            runtime.bootstrap_addr == bootstrap_addr,
            runtime.entry_addr == entry_addr,
    {
        Runtime {
            incoming_queue,
            idle_workers: IdleWorkers::new(worker_count),
            bootstrap_addr,
            entry_addr,
        }
    }

    /// Inject `task` at the back of the incoming queue and take the most
    /// recently parked worker off the idle list: the one to wake, if any.
    pub fn schedule(&mut self, task: Task) -> (woken: Option<WorkerId>)
        requires
            old(self).wf(),
        ensures
            final(self).wf(),
            final(self).incoming() == old(self).incoming().push(task),
            final(self).idle_workers.after_take(old(self).idle_workers, woken),
            final(self).bootstrap_addr == old(self).bootstrap_addr,
            final(self).entry_addr == old(self).entry_addr,
    {
        injector_push(&mut self.incoming_queue, task);
        self.idle_workers.take_one()
    }

    /// Register worker `id` as parked. It must exist and not be registered.
    pub fn register_idle(&mut self, id: WorkerId)
        requires
            old(self).wf(),
            id.0 < old(self).idle_workers.worker_count(),
            !old(self).idle_workers.is_idle(id),
        ensures
            final(self).wf(),
            final(self).idle_workers.after_register(old(self).idle_workers, id),
            final(self).incoming() == old(self).incoming(),
            final(self).bootstrap_addr == old(self).bootstrap_addr,
            final(self).entry_addr == old(self).entry_addr,
    {
        self.idle_workers.register(id);
    }

    /// Withdraw worker `id` from the parked workers, if registered. It must
    /// exist.
    pub fn cancel_idle(&mut self, id: WorkerId)
        requires
            old(self).wf(),
            id.0 < old(self).idle_workers.worker_count(),
        ensures
            final(self).wf(),
            final(self).idle_workers.after_cancel(old(self).idle_workers, id),
            !final(self).idle_workers.is_idle(id),
            final(self).incoming() == old(self).incoming(),
            final(self).bootstrap_addr == old(self).bootstrap_addr,
            final(self).entry_addr == old(self).entry_addr,
    {
        self.idle_workers.cancel(id);
    }

    /// The number of parked workers.
    pub fn idle_count(&self) -> (n: usize)
        ensures
            n == self.idle_workers.idle().len(),
    {
        self.idle_workers.len()
    }
}

/// Start a task that runs `func` on a stack of its own: it is injected at the
/// back of the incoming queue, and the most recently parked worker, if any,
/// is taken off the idle list and returned so that the caller wakes it.
pub fn spawn<F: FnOnce() + Send + 'static>(runtime: &mut Runtime, func: F) -> (woken: Option<WorkerId>)
    requires
        old(runtime).wf(),
    ensures
        final(runtime).wf(),
        final(runtime).incoming().len() == old(runtime).incoming().len() + 1,
        final(runtime).incoming().drop_last() == old(runtime).incoming(),
        final(runtime).incoming().last().outcome is None,
        final(runtime).incoming().last().routine.is_bootstrapped(
            old(runtime).bootstrap_addr,
            final(runtime).incoming().last().routine.context.x19,
            old(runtime).entry_addr,
        ),
        final(runtime).incoming().last().routine.context.x19 > 0,
        final(runtime).incoming().last().routine.made_from@ == crate::routine::ensures_of(func),
        final(runtime).idle_workers.after_take(old(runtime).idle_workers, woken),
        final(runtime).bootstrap_addr == old(runtime).bootstrap_addr,
        final(runtime).entry_addr == old(runtime).entry_addr,
{
    let routine = RsRoutine::new_pinned(func, runtime.bootstrap_addr, runtime.entry_addr);
    let woken = runtime.schedule(Task::new(routine));
    proof {
        assert(final(runtime).incoming().drop_last() =~= old(runtime).incoming());
    }
    woken
}

/// A worker: it runs tasks one at a time, keeping the tasks that yielded on
/// it in a queue of its own so that they resume on the same thread.
pub struct WorkerState {
    pub id: WorkerId,
    /// Tasks that yielded on this worker, to be resumed in FIFO order.
    pub local_queue: LocalQueue,
    /// Counts the tasks found, so that the worker alternates which queue it
    /// looks at first and neither new tasks nor yielded ones starve.
    pub tick: u32,
    /// The worker's own context, resumed when a task suspends.
    pub context: Context,
    /// The task running on this worker, if any.
    pub current: Option<Task>,
}

impl WorkerState {
    /// The tasks waiting in the worker's own queue.
    pub open spec fn local(self) -> Seq<Task> {
        self.local_queue.tasks()
    }

    /// The worker's own queue is a FIFO queue that no other thread takes
    /// from.
    pub open spec fn wf(self) -> bool {
        self.local_queue.wf()
    }

    /// Whether a search for a task, starting from a worker whose tick is
    /// `tick` and whose queue held `local`, with the injector holding
    /// `incoming`, may end with `probe`, leaving `local_after` and
    /// `incoming_after`. On an even tick the worker's own queue is tried
    /// first, on an odd tick the injector; the other queue is tried only when
    /// the first is empty.
    pub open spec fn search_step(
        tick: u32,
        local: Seq<Task>,
        incoming: Seq<Task>,
        probe: Probe,
        local_after: Seq<Task>,
        incoming_after: Seq<Task>,
    ) -> bool {
        if tick % 2 == 0 {
            if local.len() > 0 {
                &&& probe == Probe::Found(local[0])
                &&& local_after == local.drop_first()
                &&& incoming_after == incoming
            } else {
                &&& local_after == local
                &&& steal_step(incoming, probe, incoming_after)
            }
        } else {
            if incoming.len() > 0 {
                &&& local_after == local
                &&& steal_step(incoming, probe, incoming_after)
            } else {
                &&& incoming_after == incoming
                &&& local.len() == 0 ==> probe is Empty && local_after == local
                &&& local.len() > 0 ==> probe == Probe::Found(local[0]) && local_after == local.drop_first()
            }
        }
    }

    /// Apart from the running task, `self` is `old`.
    pub open spec fn same_but_current(self, old: WorkerState) -> bool {
        &&& self.id == old.id
        &&& self.local_queue == old.local_queue
        &&& self.local() == old.local()
        &&& self.tick == old.tick
        &&& self.context == old.context
    }

    /// `self` is `old` once its running task recorded `outcome`.
    pub open spec fn after_suspend(self, old: WorkerState, outcome: RunOutcome) -> bool {
        &&& old.current matches Some(task) && self.current == Some(Task { routine: task.routine, outcome: Some(outcome) })
        &&& self.same_but_current(old)
    }

    /// `self` is `old` once its running task was settled, returning
    /// `completion`: a yielded task went to the back of the worker's queue
    /// with its outcome cleared; a completed task was dropped and its
    /// completion handed back.
    pub open spec fn after_finish(self, old: WorkerState, completion: Option<Completion>) -> bool {
        &&& self.current is None
        &&& self.id == old.id
        &&& self.tick == old.tick
        &&& self.context == old.context
        &&& old.current matches Some(task) && match task.outcome {
            Some(RunOutcome::Yielded) => {
                &&& completion is None
                &&& self.local() == old.local().push(Task { routine: task.routine, outcome: None })
            },
            Some(RunOutcome::Completed(c)) => {
                &&& completion == Some(c)
                &&& self.local() == old.local()
            },
            None => false,
        }
    }

    /// A worker with an empty queue, no running task and a zeroed context.
    pub fn new(id: WorkerId) -> (worker: Self)
        ensures
            worker.wf(),
            worker.id == id,
            worker.local() == Seq::<Task>::empty(),
            worker.tick == 0,
            worker.context.is_zeroed(),
            worker.current is None,
    {
        WorkerState {
            id,
            local_queue: LocalQueue::new(),
            tick: 0,
            context: Context::default(),
            current: None,
        }
    }

    /// One search for the next task to run, on the worker's own queue and on
    /// `incoming`, in the order the tick says. The tick advances, wrapping,
    /// each time a task is found.
    pub fn find_task(&mut self, incoming: &mut crossbeam_deque::Injector<Task>) -> (probe: Probe)
        requires
            old(self).wf(),
        ensures
            final(self).wf(),
            Self::search_step(
                old(self).tick,
                old(self).local(),
                injector_tasks(*old(incoming)),
                probe,
                final(self).local(),
                injector_tasks(*final(incoming)),
            ),
            old(self).local().len() > 0 && injector_tasks(*old(incoming)).len() > 0 && old(self).tick % 2 == 0
                ==> probe == Probe::Found(old(self).local()[0])
                && final(self).local() == old(self).local().drop_first()
                && injector_tasks(*final(incoming)) == injector_tasks(*old(incoming)),
            old(self).local().len() > 0 && injector_tasks(*old(incoming)).len() > 0 && old(self).tick % 2 == 1
                ==> final(self).local() == old(self).local() && (
                (probe == Probe::Found(injector_tasks(*old(incoming))[0])
                    && injector_tasks(*final(incoming)) == injector_tasks(*old(incoming)).drop_first())
                || (probe is Retry && injector_tasks(*final(incoming)) == injector_tasks(*old(incoming)))),
            probe is Found ==> final(self).tick == old(self).tick.wrapping_add(1),
            !(probe is Found) ==> final(self).tick == old(self).tick,
            final(self).id == old(self).id,
            final(self).context == old(self).context,
            final(self).current == old(self).current,
    {
        let prefer_local = self.tick % 2 == 0;
        let probe = if prefer_local {
            match self.local_queue.pop() {
                Some(task) => Probe::Found(task),
                None => injector_steal(incoming),
            }
        } else {
            match injector_steal(incoming) {
                Probe::Empty => match self.local_queue.pop() {
                    Some(task) => Probe::Found(task),
                    None => Probe::Empty,
                },
                other => other,
            }
        };
        if let Probe::Found(_) = &probe {
            self.tick = self.tick.wrapping_add(1);
        }
        probe
    }

    /// Make `task` the worker's running task, before switching to it. The
    /// task must not carry an outcome from an earlier run.
    pub fn begin_dispatch(&mut self, task: Task)
        requires
            task.outcome is None,
        ensures
            final(self).current == Some(task),
            final(self).same_but_current(*old(self)),
    {
        self.current = Some(task);
    }

    /// Settle the running task once it has switched back to the worker: a
    /// task that yielded goes to the back of the worker's own queue, with its
    /// outcome cleared; a task that completed is dropped and its completion
    /// returned. The task must have recorded an outcome.
    pub fn finish_dispatch(&mut self) -> (completion: Option<Completion>)
        requires
            old(self).wf(),
            old(self).current is Some,
            old(self).current->0.outcome is Some,
        ensures
            final(self).wf(),
            final(self).after_finish(*old(self), completion),
    {
        let mut task = match self.current.take() {
            Some(task) => task,
            None => return None,
        };
        match task.outcome.take() {
            Some(RunOutcome::Yielded) => {
                self.local_queue.push(task);
                None
            },
            Some(RunOutcome::Completed(result)) => Some(result),
            None => None,
        }
    }
}

/// Record why the task running on `worker` hands control back: the step of
/// suspending that comes before the switch to the worker's context. There
/// must be a running task, and it must not have recorded an outcome yet.
pub fn suspend_current(worker: &mut WorkerState, outcome: RunOutcome)
    requires
        old(worker).current is Some,
        old(worker).current->0.outcome is None,
    ensures
        final(worker).after_suspend(*old(worker), outcome),
{
    match &mut worker.current {
        Some(task) => {
            task.outcome = Some(outcome);
        },
        None => {},
    }
}

/// Record that the task running on `worker` yields, so that the worker puts
/// it back in its own queue once control has switched back to it.
pub fn yield_now(worker: &mut WorkerState)
    requires
        old(worker).current is Some,
        old(worker).current->0.outcome is None,
    ensures
        final(worker).after_suspend(*old(worker), RunOutcome::Yielded),
{
    suspend_current(worker, RunOutcome::Yielded);
}

/// The queue a worker looks at first alternates: each task found flips the
/// tick's parity, even when the tick wraps around, so a worker that just
/// preferred its own queue next prefers the injector, and the other way
/// round.
pub proof fn lemma_priority_alternates(tick: u32)
    ensures
        (tick.wrapping_add(1) % 2 == 0) != (tick % 2 == 0),
{
}

/// With nothing injected, a search takes the front of the worker's own
/// queue, whatever the tick, and finds nothing only when that queue is empty
/// too.
pub proof fn lemma_search_with_empty_injector(
    tick: u32,
    local: Seq<Task>,
    probe: Probe,
    local_after: Seq<Task>,
    incoming_after: Seq<Task>,
)
    requires
        WorkerState::search_step(tick, local, Seq::empty(), probe, local_after, incoming_after),
    ensures
        incoming_after.len() == 0,
        local.len() == 0 ==> probe is Empty && local_after == local,
        local.len() > 0 ==> probe == Probe::Found(local[0]) && local_after == local.drop_first(),
{
}

/// A search loses no task and makes none up: the tasks in the two queues
/// afterwards, with the task found if any, are the tasks before.
pub proof fn lemma_search_conserves_tasks(
    tick: u32,
    local: Seq<Task>,
    incoming: Seq<Task>,
    probe: Probe,
    local_after: Seq<Task>,
    incoming_after: Seq<Task>,
)
    requires
        WorkerState::search_step(tick, local, incoming, probe, local_after, incoming_after),
    ensures
        probe matches Probe::Found(task) ==> (local + incoming).to_multiset() =~= (local_after
            + incoming_after).to_multiset().insert(task),
        !(probe is Found) ==> local_after == local && incoming_after == incoming,
{
    broadcast use vstd::seq_lib::group_to_multiset_ensures;
    vstd::seq_lib::lemma_multiset_commutative(local, incoming);
    vstd::seq_lib::lemma_multiset_commutative(local_after, incoming_after);
    if let Probe::Found(task) = probe {
        if local_after.len() < local.len() {
            lemma_front_split(local);
        } else {
            lemma_front_split(incoming);
        }
    }
}

/// A sequence with a front is its front followed by the rest, also as a
/// multiset.
proof fn lemma_front_split(s: Seq<Task>)
    requires
        s.len() > 0,
    ensures
        s.to_multiset() =~= s.drop_first().to_multiset().insert(s[0]),
{
    broadcast use vstd::seq_lib::group_to_multiset_ensures;
    assert(s =~= seq![s[0]] + s.drop_first());
    vstd::seq_lib::lemma_multiset_commutative(seq![s[0]], s.drop_first());
    assert(seq![s[0]] =~= Seq::<Task>::empty().push(s[0]));
}

/// A task that yields resumes on the same worker: once the running task
/// records that it yielded and the worker settles it, the task, with its
/// outcome cleared, is the last in the worker's own queue and nothing is
/// handed back.
pub proof fn lemma_yielded_task_requeued_locally(
    running: WorkerState,
    suspended: WorkerState,
    settled: WorkerState,
    completion: Option<Completion>,
)
    requires
        running.current is Some,
        running.current->0.outcome is None,
        suspended.after_suspend(running, RunOutcome::Yielded),
        settled.after_finish(suspended, completion),
    ensures
        completion is None,
        settled.local() == running.local().push(Task { routine: running.current->0.routine, outcome: None }),
        settled.current is None,
        settled.id == running.id,
        settled.tick == running.tick,
{
}

/// A task that completes leaves the worker: once the running task records
/// its completion and the worker settles it, the completion is handed back
/// and the worker's queue is as it was.
pub proof fn lemma_completed_task_handed_back(
    running: WorkerState,
    suspended: WorkerState,
    settled: WorkerState,
    done: Completion,
    completion: Option<Completion>,
)
    requires
        running.current is Some,
        running.current->0.outcome is None,
        suspended.after_suspend(running, RunOutcome::Completed(done)),
        settled.after_finish(suspended, completion),
    ensures
        completion == Some(done),
        settled.local() == running.local(),
        settled.current is None,
{
}

/// Spawning wakes a parked worker: whenever some worker is registered as
/// idle, scheduling a task takes one such worker off the idle list and hands
/// it back to be woken.
pub proof fn lemma_spawn_wakes_parked_worker(before: Runtime, after: Runtime, woken: Option<WorkerId>, parked: WorkerId)
    requires
        before.wf(),
        before.idle_workers.is_idle(parked),
        after.idle_workers.after_take(before.idle_workers, woken),
    ensures
        woken matches Some(w) && before.idle_workers.is_idle(w) && !after.idle_workers.is_idle(w),
{
    crate::idle::lemma_taken_worker_was_idle(before.idle_workers, after.idle_workers, woken);
}

/// Where a worker's polling loop stands between two steps.
#[derive(Clone, Copy, Debug, PartialEq, Eq, Structural)]
pub enum PollState {
    /// About to look for a task, not registered as idle.
    Searching,
    /// Registered as idle, about to look once more before parking.
    Rechecking,
    /// Registered as idle and parked until woken.
    Parked,
}

/// What the worker does after a step of its polling loop, besides looking
/// for a task again when its new state is `Searching` or `Rechecking`.
#[derive(Clone, Copy, Debug, PartialEq, Eq, Structural)]
pub enum PollAction {
    /// Run the task found.
    Dispatch,
    /// Register as idle.
    RegisterIdle,
    /// Withdraw from the idle workers, then run the task found.
    CancelIdleAndDispatch,
    /// Park the thread until a spawn wakes it.
    Park,
    /// Withdraw from the idle workers.
    CancelIdle,
}

impl PollState {
    /// Whether a worker in this state is registered as idle.
    pub open spec fn registered(self) -> bool {
        self is Rechecking || self is Parked
    }
}

/// The polling loop's rule, from the state and whether the search just made
/// found a task (not looked at when the worker was parked) to the next state
/// and the action to take.
pub open spec fn poll_transition(state: PollState, found: bool) -> (PollState, PollAction) {
    match state {
        PollState::Searching => if found {
            (PollState::Searching, PollAction::Dispatch)
        } else {
            (PollState::Rechecking, PollAction::RegisterIdle)
        },
        PollState::Rechecking => if found {
            (PollState::Searching, PollAction::CancelIdleAndDispatch)
        } else {
            (PollState::Parked, PollAction::Park)
        },
        PollState::Parked => (PollState::Searching, PollAction::CancelIdle),
    }
}

/// One step of a worker's polling loop: a worker that finds nothing
/// registers as idle and looks once more before parking, so that a task
/// spawned in between either is found or wakes it; a worker that finds a task
/// while registered withdraws first; a woken worker withdraws and searches.
pub fn poll_step(state: PollState, found: bool) -> (r: (PollState, PollAction))
    ensures
        r == poll_transition(state, found),
{
    match state {
        PollState::Searching => if found {
            (PollState::Searching, PollAction::Dispatch)
        } else {
            (PollState::Rechecking, PollAction::RegisterIdle)
        },
        PollState::Rechecking => if found {
            (PollState::Searching, PollAction::CancelIdleAndDispatch)
        } else {
            (PollState::Parked, PollAction::Park)
        },
        PollState::Parked => (PollState::Searching, PollAction::CancelIdle),
    }
}

/// The polling loop keeps the idle registration in step with its state: it
/// registers only a worker that is not registered, withdraws only one that
/// is, runs a task only when not registered, and parks only while
/// registered, where a spawn can find it.
pub proof fn lemma_poll_registration_balanced(state: PollState, found: bool)
    ensures
        ({
            let (next, action) = poll_transition(state, found);
            &&& action is RegisterIdle ==> !state.registered() && next.registered()
            &&& (action is CancelIdle || action is CancelIdleAndDispatch) ==> state.registered() && !next.registered()
            &&& (action is Dispatch || action is Park) ==> state.registered() == next.registered()
            &&& (action is Dispatch || action is CancelIdleAndDispatch) ==> !next.registered()
            &&& action is Park ==> next.registered()
        }),
{
}

/// No task in `tasks` carries an outcome.
pub open spec fn all_fresh(tasks: Seq<Task>) -> bool {
    forall|i: int| 0 <= i < tasks.len() ==> (#[trigger] tasks[i]).outcome is None
}

/// A task never carries an outcome into a dispatch, and always carries one
/// out of it: if no queued task carries an outcome, the task a search finds
/// carries none (so `begin_dispatch` accepts it); once the running task has
/// recorded its outcome it carries one (so `finish_dispatch` accepts it);
/// and afterwards still no queued task carries an outcome.
pub proof fn lemma_dispatch_cycle_keeps_tasks_fresh(
    searching: WorkerState,
    incoming: Seq<Task>,
    task: Task,
    found: WorkerState,
    incoming_after: Seq<Task>,
    running: WorkerState,
    outcome: RunOutcome,
    suspended: WorkerState,
    completion: Option<Completion>,
    settled: WorkerState,
)
    requires
        all_fresh(searching.local()),
        all_fresh(incoming),
        WorkerState::search_step(
            searching.tick,
            searching.local(),
            incoming,
            Probe::Found(task),
            found.local(),
            incoming_after,
        ),
        running.current == Some(task),
        running.same_but_current(found),
        suspended.after_suspend(running, outcome),
        settled.after_finish(suspended, completion),
    ensures
        task.outcome is None,
        suspended.current->0.outcome is Some,
        all_fresh(incoming_after),
        all_fresh(settled.local()),
{
    assert(all_fresh(found.local())) by {
        if found.local().len() < searching.local().len() {
            assert forall|i: int| 0 <= i < found.local().len() implies (#[trigger] found.local()[i]).outcome is None by {
                assert(found.local()[i] == searching.local()[i + 1]);
            }
        }
    }
    assert(all_fresh(incoming_after)) by {
        if incoming_after.len() < incoming.len() {
            assert forall|i: int| 0 <= i < incoming_after.len() implies (#[trigger] incoming_after[i]).outcome is None by {
                assert(incoming_after[i] == incoming[i + 1]);
            }
        }
    }
    assert(all_fresh(settled.local())) by {
        assert forall|i: int| 0 <= i < settled.local().len() implies (#[trigger] settled.local()[i]).outcome is None by {
            if i < found.local().len() {
                assert(settled.local()[i] == found.local()[i]);
            }
        }
    }
}

/// Spawning keeps the injector free of tasks that carry an outcome.
pub proof fn lemma_spawn_keeps_incoming_fresh(before: Seq<Task>, after: Seq<Task>)
    requires
        all_fresh(before),
        after.len() == before.len() + 1,
        after.drop_last() == before,
        after.last().outcome is None,
    ensures
        all_fresh(after),
{
    assert forall|i: int| 0 <= i < after.len() implies (#[trigger] after[i]).outcome is None by {
        if i < before.len() {
            assert(after.drop_last()[i] == after[i]);
        }
    }
}

/// A worker's own queue is first in, first out: a search takes from it only
/// its front task, every other task moves one place forward, and settling a
/// task only adds at the back. So a task that yields behind `k` others runs
/// again only after those `k` have been taken, in their order.
pub proof fn lemma_local_queue_is_fifo(
    tick: u32,
    local: Seq<Task>,
    incoming: Seq<Task>,
    probe: Probe,
    local_after: Seq<Task>,
    incoming_after: Seq<Task>,
    pos: int,
)
    requires
        WorkerState::search_step(tick, local, incoming, probe, local_after, incoming_after),
        0 <= pos < local.len(),
    ensures
        local_after.len() == local.len() ==> local_after == local,
        local_after.len() < local.len() ==> {
            &&& probe == Probe::Found(local[0])
            &&& local_after == local.drop_first()
            &&& pos > 0 ==> local_after[pos - 1] == local[pos]
        },
        local_after.len() == local.len() || local_after.len() == local.len() - 1,
{
}

/// Settling a task leaves the tasks already in the worker's queue in their
/// places.
pub proof fn lemma_settling_keeps_queue_order(
    before: WorkerState,
    after: WorkerState,
    completion: Option<Completion>,
    pos: int,
)
    requires
        after.after_finish(before, completion),
        0 <= pos < before.local().len(),
    ensures
        after.local()[pos] == before.local()[pos],
{
}

/// No wake-up is lost between a worker registering as idle, searching once
/// more, and parking. Let worker `w` be registered as idle when a task is
/// scheduled. If its recheck comes after the schedule, the recheck does not
/// come up empty (the injector holds the task); if the schedule comes while
/// it is still registered, the schedule takes a registered worker off the
/// idle list to wake. Either way the task is not left while every worker
/// sleeps.
pub proof fn lemma_no_lost_wakeup(
    before: Runtime,
    task: Task,
    after: Runtime,
    woken: Option<WorkerId>,
    w: WorkerId,
    tick: u32,
    local: Seq<Task>,
    probe: Probe,
    local_after: Seq<Task>,
    incoming_after: Seq<Task>,
)
    requires
        before.wf(),
        before.idle_workers.is_idle(w),
        after.incoming() == before.incoming().push(task),
        after.idle_workers.after_take(before.idle_workers, woken),
        WorkerState::search_step(tick, local, after.incoming(), probe, local_after, incoming_after),
    ensures
        woken matches Some(x) && before.idle_workers.is_idle(x) && !after.idle_workers.is_idle(x),
        !(probe is Empty),
{
    crate::idle::lemma_taken_worker_was_idle(before.idle_workers, after.idle_workers, woken);
}

/// How a worker's own queue may change in one step: a search that takes
/// from it removes its front, settling a yielded task adds one at the back,
/// and anything else leaves it as it is.
pub open spec fn queue_step(before: Seq<Task>, after: Seq<Task>) -> bool {
    ||| after == before
    ||| before.len() > 0 && after == before.drop_first()
    ||| exists|task: Task| after == before.push(task)
}

/// Every two consecutive states in `queues` are one `queue_step` apart.
pub open spec fn queue_steps(queues: Seq<Seq<Task>>) -> bool {
    forall|i: int| 0 <= i < queues.len() - 1 ==> #[trigger] queue_step(queues[i], queues[i + 1])
}

/// The number of tasks taken from the front of the queue between
/// `queues[0]` and `queues[i]`.
pub open spec fn taken_before(queues: Seq<Seq<Task>>, i: int) -> int
    decreases i,
{
    if i <= 0 {
        0
    } else {
        taken_before(queues, i - 1) + if queues[i].len() < queues[i - 1].len() {
            1int
        } else {
            0int
        }
    }
}

/// A search changes the worker's own queue by one `queue_step`.
pub proof fn lemma_search_is_queue_step(
    tick: u32,
    local: Seq<Task>,
    incoming: Seq<Task>,
    probe: Probe,
    local_after: Seq<Task>,
    incoming_after: Seq<Task>,
)
    requires
        WorkerState::search_step(tick, local, incoming, probe, local_after, incoming_after),
    ensures
        queue_step(local, local_after),
{
}

/// Settling the running task changes the worker's own queue by one
/// `queue_step`.
pub proof fn lemma_settling_is_queue_step(before: WorkerState, after: WorkerState, completion: Option<Completion>)
    requires
        after.after_finish(before, completion),
    ensures
        queue_step(before.local(), after.local()),
{
    if let Some(task) = before.current {
        if let Some(RunOutcome::Yielded) = task.outcome {
            let t = Task { routine: task.routine, outcome: None };
            assert(after.local() == before.local().push(t));
        }
    }
}

/// A task that waits in a worker's queue behind `k` others runs after
/// exactly those `k`, in their order: over any run of searches and settles,
/// the task that stood at place `k` stands at place `k - t` once `t <= k`
/// tasks have been taken from the front. So while fewer than `k` have been
/// taken it is not at the front, each task taken meanwhile is the one that
/// stood ahead of it, and once `k` have been taken it is the next to go.
pub proof fn lemma_queued_task_runs_after_those_ahead(queues: Seq<Seq<Task>>, k: int, i: int)
    requires
        queue_steps(queues),
        0 <= k < queues[0].len(),
        0 <= i < queues.len(),
        taken_before(queues, i) <= k,
    ensures
        k - taken_before(queues, i) < queues[i].len(),
        queues[i][k - taken_before(queues, i)] == queues[0][k],
    decreases i,
{
    if i > 0 {
        let t = taken_before(queues, i - 1);
        assert(t <= taken_before(queues, i));
        lemma_queued_task_runs_after_those_ahead(queues, k, i - 1);
        let j = i - 1;
        assert(queue_step(queues[j], queues[j + 1]));
        let prev = queues[j];
        let cur = queues[j + 1];
        assert(j + 1 == i);
        if cur.len() < prev.len() {
            if cur == prev {
            } else if prev.len() > 0 && cur == prev.drop_first() {
                assert(cur[k - t - 1] == prev[k - t]);
            } else {
                let task = choose|task: Task| cur == prev.push(task);
                assert(cur.len() == prev.len() + 1);
            }
        } else {
            if cur == prev {
            } else if prev.len() > 0 && cur == prev.drop_first() {
                assert(cur.len() == prev.len() - 1);
            } else {
                let task = choose|task: Task| cur == prev.push(task);
                assert(cur[k - t] == prev[k - t]);
            }
        }
    }
}

/// With tasks waiting in both queues, a search on an even tick takes the
/// front of the worker's own queue and leaves the injector alone, and a
/// search on an odd tick leaves the worker's own queue alone and steals the
/// injector's front (or is told to retry).
pub proof fn lemma_search_prefers_by_parity(
    tick: u32,
    local: Seq<Task>,
    incoming: Seq<Task>,
    probe: Probe,
    local_after: Seq<Task>,
    incoming_after: Seq<Task>,
)
    requires
        WorkerState::search_step(tick, local, incoming, probe, local_after, incoming_after),
        local.len() > 0,
        incoming.len() > 0,
    ensures
        tick % 2 == 0 ==> probe == Probe::Found(local[0]) && local_after == local.drop_first()
            && incoming_after == incoming,
        tick % 2 == 1 ==> local_after == local && (probe == Probe::Found(incoming[0]) || probe is Retry),
{
}

/// Neither queue starves the other: of two successive searches that both
/// find a task while both queues hold tasks, one takes from the worker's own
/// queue and the other from the injector.
pub proof fn lemma_successive_finds_alternate_queues(
    tick: u32,
    local0: Seq<Task>,
    incoming0: Seq<Task>,
    first: Task,
    local1: Seq<Task>,
    incoming1: Seq<Task>,
    second: Task,
    local2: Seq<Task>,
    incoming2: Seq<Task>,
)
    requires
        WorkerState::search_step(tick, local0, incoming0, Probe::Found(first), local1, incoming1),
        WorkerState::search_step(tick.wrapping_add(1), local1, incoming1, Probe::Found(second), local2, incoming2),
        local0.len() > 0,
        incoming0.len() > 0,
        local1.len() > 0,
        incoming1.len() > 0,
    ensures
        (local1.len() < local0.len()) != (local2.len() < local1.len()),
        (incoming1.len() < incoming0.len()) != (incoming2.len() < incoming1.len()),
        (local1.len() < local0.len()) != (incoming1.len() < incoming0.len()),
{
    lemma_priority_alternates(tick);
}

}
