use vstd::prelude::*;

use std::collections::VecDeque;

use crate::context::Context;
use crate::routine::{RoutineState, RsRoutine};

verus! {

/// The identity of a routine within its scheduler: its index in spawn order.
#[derive(Clone, Copy, Debug, PartialEq, Eq, Hash, Structural)]
pub struct RoutineId(pub usize);

impl RoutineId {
    /// The index of the routine.
    pub fn inner(self) -> (index: usize)
        ensures
            index == self.0,
    {
        self.0
    }
}

/// A single-threaded scheduler: it owns its routines and runs the runnable
/// ones in the order they were queued.
pub struct Scheduler {
    context: Context,
    routines: Vec<Box<RsRoutine>>,
    run_queue: VecDeque<RoutineId>,
    bootstrap_addr: usize,
    entry_addr: usize,
}

impl Scheduler {
    /// The number of routines spawned so far.
    pub closed spec fn count(self) -> nat {
        self.routines@.len()
    }

    /// The routine with index `i`.
    pub closed spec fn routine_at(self, i: int) -> RsRoutine {
        *self.routines@[i]
    }

    /// The routines waiting to run, first to run first.
    pub closed spec fn queue(self) -> Seq<RoutineId> {
        self.run_queue@
    }

    /// The context the scheduler itself resumes from when a routine suspends.
    pub closed spec fn own_context(self) -> Context {
        self.context
    }

    /// The address new routines enter through.
    pub closed spec fn bootstrap(self) -> usize {
        self.bootstrap_addr
    }

    /// The address of the function the bootstrap code calls.
    pub closed spec fn entry(self) -> usize {
        self.entry_addr
    }

    /// Every queued id names a routine of this scheduler.
    pub closed spec fn wf(self) -> bool {
        forall|i: int| 0 <= i < self.run_queue@.len() ==> (#[trigger] self.run_queue@[i]).0 < self.routines@.len()
    }

    /// The state of the routine with index `i`.
    pub open spec fn state_at(self, i: int) -> RoutineState {
        self.routine_at(i).state
    }

    /// Apart from routine `except`, every routine is as it was in `old`.
    pub open spec fn others_unchanged(self, old: Scheduler, except: int) -> bool {
        &&& self.count() == old.count()
        &&& forall|i: int| 0 <= i < self.count() && i != except ==> #[trigger] self.routine_at(i) == old.routine_at(i)
    }

    /// The spec-level answer of `get_state`.
    pub open spec fn state_of(self, id: RoutineId) -> Option<RoutineState> {
        if id.0 < self.count() {
            Some(self.state_at(id.0 as int))
        } else {
            None
        }
    }

    /// Queue, entry points and the scheduler's own context are as in `old`.
    pub open spec fn same_setup(self, old: Scheduler) -> bool {
        &&& self.queue() == old.queue()
        &&& self.bootstrap() == old.bootstrap()
        &&& self.entry() == old.entry()
        &&& self.own_context() == old.own_context()
    }

    /// `self` is `old` after routine `id` was set to `state`: only that
    /// routine's state changed.
    pub open spec fn marked(self, old: Scheduler, id: RoutineId, state: RoutineState) -> bool {
        &&& id.0 < old.count()
        &&& self.state_at(id.0 as int) == state
        &&& self.routine_at(id.0 as int).stack == old.routine_at(id.0 as int).stack
        &&& self.routine_at(id.0 as int).context == old.routine_at(id.0 as int).context
        &&& self.routine_at(id.0 as int).func == old.routine_at(id.0 as int).func
        &&& self.routine_at(id.0 as int).made_from == old.routine_at(id.0 as int).made_from
        &&& self.others_unchanged(old, id.0 as int)
        &&& self.same_setup(old)
    }

    /// `self` is `old` after `spawn` returned `id`: a new routine, set up to
    /// start through the scheduler's entry points, is stored last and queued
    /// last.
    pub open spec fn spawned(self, old: Scheduler, id: RoutineId) -> bool {
        &&& id.0 == old.count()
        &&& self.count() == old.count() + 1
        &&& forall|i: int| 0 <= i < old.count() ==> #[trigger] self.routine_at(i) == old.routine_at(i)
        &&& self.routine_at(id.0 as int).is_bootstrapped(
            old.bootstrap(),
            self.routine_at(id.0 as int).context.x19,
            old.entry(),
        )
        &&& self.queue() == old.queue().push(id)
        &&& self.bootstrap() == old.bootstrap()
        &&& self.entry() == old.entry()
        &&& self.own_context() == old.own_context()
    }

    /// `self` is `old` after `next` returned `next`: the first queued routine
    /// is dequeued and marked running; with nothing queued, nothing changes.
    pub open spec fn advanced(self, old: Scheduler, next: Option<RoutineId>) -> bool {
        &&& self.count() == old.count()
        &&& self.bootstrap() == old.bootstrap()
        &&& self.entry() == old.entry()
        &&& self.own_context() == old.own_context()
        &&& if old.queue().len() == 0 {
            &&& next is None
            &&& self.queue() == old.queue()
            &&& self.others_unchanged(old, -1)
        } else {
            let id = old.queue()[0];
            &&& next == Some(id)
            &&& id.0 < old.count()
            &&& self.queue() == old.queue().drop_first()
            &&& self.state_at(id.0 as int) == RoutineState::Running
            &&& self.routine_at(id.0 as int).stack == old.routine_at(id.0 as int).stack
            &&& self.routine_at(id.0 as int).context == old.routine_at(id.0 as int).context
            &&& self.routine_at(id.0 as int).func == old.routine_at(id.0 as int).func
            &&& self.routine_at(id.0 as int).made_from == old.routine_at(id.0 as int).made_from
            &&& self.others_unchanged(old, id.0 as int)
        }
    }

    /// An empty scheduler with no entry points: the routines it spawns are
    /// set up but would need real entry addresses to be resumed.
    pub fn new() -> (scheduler: Self)
        ensures
            scheduler.wf(),
            scheduler.count() == 0,
            scheduler.queue() == Seq::<RoutineId>::empty(),
            scheduler.bootstrap() == 0,
            scheduler.entry() == 0,
            scheduler.own_context().is_zeroed(),
    {
        Self::with_entry_points(0, 0)
    }

    /// An empty scheduler whose routines start through `bootstrap_addr` and
    /// then call the function at `entry_addr`.
    pub fn with_entry_points(bootstrap_addr: usize, entry_addr: usize) -> (scheduler: Self)
        ensures
            scheduler.wf(),
            scheduler.count() == 0,
            scheduler.queue() == Seq::<RoutineId>::empty(),
            scheduler.bootstrap() == bootstrap_addr,
            scheduler.entry() == entry_addr,
            scheduler.own_context().is_zeroed(),
    {
        Scheduler {
            context: Context::default(),
            routines: Vec::new(),
            run_queue: VecDeque::new(),
            bootstrap_addr,
            entry_addr,
        }
    }

    /// Mutable access to the context the scheduler resumes from when a
    /// routine suspends: the context switch saves the scheduler's registers
    /// there.
    pub fn context_mut(&mut self) -> (context: &mut Context)
        ensures
            *context == old(self).own_context(),
            final(self).own_context() == *final(context),
            final(self).count() == old(self).count(),
            forall|i: int| 0 <= i < old(self).count() ==> #[trigger] final(self).routine_at(i) == old(self).routine_at(i),
            final(self).queue() == old(self).queue(),
            final(self).bootstrap() == old(self).bootstrap(),
            final(self).entry() == old(self).entry(),
    {
        &mut self.context
    }

    /// The address new routines enter through.
    pub fn bootstrap_addr(&self) -> (addr: usize)
        ensures
            addr == self.bootstrap(),
    {
        self.bootstrap_addr
    }

    /// The number of routines spawned so far.
    pub fn routine_count(&self) -> (n: usize)
        ensures
            n == self.count(),
    {
        self.routines.len()
    }

    /// The number of routines waiting to run.
    pub fn queue_len(&self) -> (n: usize)
        ensures
            n == self.queue().len(),
    {
        self.run_queue.len()
    }

    /// Store a new routine that will run `func`, queue it last, and return
    /// its id: the number of routines spawned before it.
    pub fn spawn<F: FnOnce() + Send + 'static>(&mut self, func: F) -> (id: RoutineId)
        requires
            old(self).wf(),
        ensures
            final(self).wf(),
            final(self).spawned(*old(self), id),
            final(self).routine_at(id.0 as int).made_from@ == crate::routine::ensures_of(func),
    {
        let routine = RsRoutine::new_pinned(func, self.bootstrap_addr, self.entry_addr);
        let routine_id = RoutineId(self.routines.len());
        self.routines.push(routine);
        self.run_queue.push_back(routine_id);
        assert forall|i: int| 0 <= i < self.run_queue@.len() implies (#[trigger] self.run_queue@[i]).0 < self.routines@.len() by {
            if i < old(self).run_queue@.len() {
                assert(old(self).run_queue@[i] == self.run_queue@[i]);
            }
        }
        routine_id
    }

    /// Set the state of routine `routine`; `None`, with nothing changed, if
    /// there is no such routine.
    pub fn mark(&mut self, routine: RoutineId, state: RoutineState) -> (r: Option<()>)
        requires
            old(self).wf(),
        ensures
            final(self).wf(),
            r is Some <==> routine.0 < old(self).count(),
            r is Some ==> final(self).marked(*old(self), routine, state),
            r is None ==> *final(self) == *old(self),
    {
        match self.routine_mut(routine) {
            Some(r) => {
                r.set_state(state);
                Some(())
            },
            None => None,
        }
    }

    /// The state of routine `routine`, if there is such a routine.
    pub fn get_state(&self, routine: RoutineId) -> (state: Option<RoutineState>)
        ensures
            state == self.state_of(routine),
            routine.0 >= self.count() ==> state is None,
            routine.0 < self.count() ==> state == Some(self.routine_at(routine.0 as int).state),
    {
        match self.routine(routine) {
            Some(r) => Some(r.state()),
            None => None,
        }
    }

    /// Take the first queued routine, mark it running and return its id;
    /// `None`, with nothing changed, if no routine is queued.
    pub fn next(&mut self) -> (next: Option<RoutineId>)
        requires
            old(self).wf(),
        ensures
            final(self).wf(),
            final(self).advanced(*old(self), next),
    {
        match self.run_queue.pop_front() {
            Some(routine) => {
                assert(old(self).run_queue@[0] == routine);
                let marked = self.mark(routine, RoutineState::Running);
                Some(routine)
            },
            None => None,
        }
    }

    /// The routine with id `routine`, if there is one.
    pub fn routine(&self, routine: RoutineId) -> (r: Option<&RsRoutine>)
        ensures
            routine.0 < self.count() ==> r == Some(&self.routine_at(routine.0 as int)),
            routine.0 >= self.count() ==> r is None,
    {
        if routine.inner() < self.routines.len() {
            Some(&*self.routines[routine.inner()])
        } else {
            None
        }
    }

    /// Mutable access to the routine with id `routine`, if there is one.
    pub fn routine_mut(&mut self, routine: RoutineId) -> (r: Option<&mut RsRoutine>)
        ensures
            routine.0 < old(self).count() ==> {
                &&& r is Some
                &&& *r->0 == old(self).routine_at(routine.0 as int)
                &&& final(self).count() == old(self).count()
                &&& final(self).routine_at(routine.0 as int) == *final(r->0)
                &&& final(self).others_unchanged(*old(self), routine.0 as int)
            },
            routine.0 >= old(self).count() ==> r is None && *final(self) == *old(self),
            final(self).queue() == old(self).queue(),
            final(self).bootstrap() == old(self).bootstrap(),
            final(self).entry() == old(self).entry(),
            final(self).own_context() == old(self).own_context(),
    {
        if routine.inner() < self.routines.len() {
            Some(&mut *self.routines[routine.inner()])
        } else {
            None
        }
    }
}

/// Reading a routine's state gives back what was last written: after
/// routine `id` is set to `state`, `get_state(id)` answers `state`, and every
/// other routine answers as before.
pub proof fn lemma_state_after_mark(before: Scheduler, after: Scheduler, id: RoutineId, state: RoutineState)
    requires
        after.marked(before, id, state),
    ensures
        after.state_of(id) == Some(state),
        forall|other: RoutineId| other != id ==> #[trigger] after.state_of(other) == before.state_of(other),
{
    assert forall|other: RoutineId| other != id implies #[trigger] after.state_of(other) == before.state_of(other) by {
        if other.0 < before.count() {
            assert(other.0 as int != id.0 as int);
            assert(after.routine_at(other.0 as int) == before.routine_at(other.0 as int));
        }
    }
}

/// Routines run in the order they were spawned: on a scheduler with nothing
/// queued, spawning `first` and then `second` gives them the next two ids,
/// and the next two calls of `next` return `first` and then `second`, both
/// marked running, with nothing left queued.
pub proof fn lemma_spawn_order_is_run_order(
    s0: Scheduler,
    s1: Scheduler,
    s2: Scheduler,
    s3: Scheduler,
    s4: Scheduler,
    first: RoutineId,
    second: RoutineId,
    n1: Option<RoutineId>,
    n2: Option<RoutineId>,
)
    requires
        s0.queue().len() == 0,
        s1.spawned(s0, first),
        s2.spawned(s1, second),
        s3.advanced(s2, n1),
        s4.advanced(s3, n2),
    ensures
        first.0 == s0.count(),
        second.0 == s0.count() + 1,
        n1 == Some(first),
        n2 == Some(second),
        s4.state_of(first) == Some(RoutineState::Running),
        s4.state_of(second) == Some(RoutineState::Running),
        s4.queue().len() == 0,
{
    assert(s2.queue() =~= seq![first, second]);
    assert(s3.queue() =~= seq![second]);
    assert(s4.routine_at(first.0 as int) == s3.routine_at(first.0 as int));
}

/// An id names a routine exactly when it is below the number of routines
/// spawned: reading the state of any other id gives nothing, however many
/// routines exist, and reading a spawned one gives that routine's state.
pub proof fn lemma_state_only_for_spawned_ids(s: Scheduler, id: RoutineId)
    ensures
        s.state_of(id) is None <==> id.0 >= s.count(),
        id.0 < s.count() ==> s.state_of(id) == Some(s.routine_at(id.0 as int).state),
{
}

/// The routine `spawn` stores runs the caller's closure: it is pending, and
/// what running it ensures is exactly what the given closure ensures, so a
/// routine made from any other closure with another postcondition is told
/// apart.
pub proof fn lemma_spawned_routine_holds_given_closure<F: FnOnce()>(
    before: Scheduler,
    after: Scheduler,
    id: RoutineId,
    func: F,
)
    requires
        after.spawned(before, id),
        after.routine_at(id.0 as int).made_from@ == crate::routine::ensures_of(func),
    ensures
        after.routine_at(id.0 as int).func is Some,
        after.state_of(id) == Some(RoutineState::Runnable),
        forall|r: ()| #[trigger] (after.routine_at(id.0 as int).made_from@)(r) == call_ensures(func, (), r),
{
}

}
