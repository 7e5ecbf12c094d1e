use vstd::prelude::*;

use crate::context::Context;
use crate::func::Job;
use crate::stack::Stack;

verus! {

/// Size in bytes of the stack each routine gets.
pub const DEFAULT_STACK_SIZE: usize = 32 * 1024;

/// Where a routine stands in its life.
#[derive(Clone, Copy, Debug, PartialEq, Eq, Structural)]
pub enum RoutineState {
    /// Waiting in a run queue.
    Runnable,
    /// Currently executing.
    Running,
    /// Suspended until something wakes it.
    Parked,
    /// Its function has returned.
    Finished,
}

/// The machine address of `routine`.
///
/// Takes the reference's address (`std::ptr::from_ref` then `addr`). A
/// reference is never null, which is all the contract claims; which address
/// comes back is left open.
#[verifier::external_body]
fn routine_address(routine: &RsRoutine) -> (addr: usize)
    ensures
        addr > 0,
{
    std::ptr::from_ref(routine).addr()
}

/// A routine: a function to run on a stack of its own, with the register
/// context to resume it from.
pub struct RsRoutine {
    pub stack: Stack,
    pub context: Context,
    pub func: Option<Job>,
    pub state: RoutineState,
    /// What calling the closure the routine was made from ensures: the
    /// routine's job is that closure, boxed.
    pub made_from: Ghost<spec_fn(()) -> bool>,
}

/// What calling `func` ensures, as a predicate on its result.
pub open spec fn ensures_of<F: FnOnce()>(func: F) -> spec_fn(()) -> bool {
    |r: ()| call_ensures(func, (), r)
}

impl RsRoutine {
    /// A routine as `new` makes it: a zeroed stack of the default size, a
    /// context that starts at `bootstrap_addr` on that stack, a function
    /// still to run, and the runnable state.
    pub open spec fn is_fresh(self, bootstrap_addr: usize) -> bool {
        &&& self.stack.contents() == Seq::new(DEFAULT_STACK_SIZE as nat, |i: int| 0u8)
        &&& self.context.starts_on(self.stack, bootstrap_addr)
        &&& self.func is Some
        &&& self.state == RoutineState::Runnable
    }

    /// A fresh routine as `new_pinned` makes it: also set up so that the
    /// bootstrap code finds the routine at `routine_addr` (register x19) and
    /// jumps to `entry_addr` (register x21); the other callee-saved
    /// registers hold zero.
    pub open spec fn is_bootstrapped(
        self,
        bootstrap_addr: usize,
        routine_addr: usize,
        entry_addr: usize,
    ) -> bool {
        &&& self.stack.contents() == Seq::new(DEFAULT_STACK_SIZE as nat, |i: int| 0u8)
        &&& self.context.sp == crate::stack::align_down(self.stack.top())
        &&& self.context.x29 == crate::stack::align_down(self.stack.top())
        &&& self.context.x30 == bootstrap_addr
        &&& self.context.x19 == routine_addr
        &&& self.context.x21 == entry_addr
        &&& self.context.x20 == 0
        &&& self.context.x22 == 0
        &&& self.context.x23 == 0
        &&& self.context.x24 == 0
        &&& self.context.x25 == 0
        &&& self.context.x26 == 0
        &&& self.context.x27 == 0
        &&& self.context.x28 == 0
        &&& self.func is Some
        &&& self.state == RoutineState::Runnable
    }

    /// A routine that will run `func`, entering through `bootstrap_addr`.
    pub fn new<F: FnOnce() + Send + 'static>(func: F, bootstrap_addr: usize) -> (routine: Self)
        ensures
            routine.is_fresh(bootstrap_addr),
            routine.made_from@ == ensures_of(func),
    {
        let stack = Stack::new(DEFAULT_STACK_SIZE);
        let context = Context::new(&stack, bootstrap_addr);
        let made_from = Ghost(ensures_of(func));
        RsRoutine {
            stack,
            context,
            func: Some(Job::new(func)),
            state: RoutineState::Runnable,
            made_from,
        }
    }

    /// A boxed routine whose context already holds its own address and the
    /// address of the entry function: the routine must stay in its box from
    /// now on, since the bootstrap code reaches it through that address.
    pub fn new_pinned<F: FnOnce() + Send + 'static>(
        func: F,
        bootstrap_addr: usize,
        entry_addr: usize,
    ) -> (routine: Box<Self>)
        ensures
            routine.context.x19 > 0,
            routine.is_bootstrapped(bootstrap_addr, routine.context.x19, entry_addr),
            routine.made_from@ == ensures_of(func),
    {
        let mut routine = Box::new(Self::new(func, bootstrap_addr));
        let addr = routine_address(&routine);
        routine.initialize_bootstrap(addr, entry_addr);
        routine
    }

    /// Store the routine's own address and the entry function's address
    /// where the bootstrap code reads them; nothing else changes.
    pub fn initialize_bootstrap(&mut self, routine_addr: usize, entry_addr: usize)
        ensures
            final(self).context.x19 == routine_addr,
            final(self).context.x21 == entry_addr,
            final(self).context.sp == old(self).context.sp,
            final(self).context.x20 == old(self).context.x20,
            final(self).context.x22 == old(self).context.x22,
            final(self).context.x23 == old(self).context.x23,
            final(self).context.x24 == old(self).context.x24,
            final(self).context.x25 == old(self).context.x25,
            final(self).context.x26 == old(self).context.x26,
            final(self).context.x27 == old(self).context.x27,
            final(self).context.x28 == old(self).context.x28,
            final(self).context.x29 == old(self).context.x29,
            final(self).context.x30 == old(self).context.x30,
            final(self).stack == old(self).stack,
            final(self).func == old(self).func,
            final(self).made_from == old(self).made_from,
            final(self).state == old(self).state,
    {
        self.context.x19 = routine_addr;
        self.context.x21 = entry_addr;
    }

    /// The routine's state.
    pub fn state(&self) -> (state: RoutineState)
        ensures
            state == self.state,
    {
        self.state
    }

    /// Set the routine's state; nothing else changes.
    pub fn set_state(&mut self, state: RoutineState)
        ensures
            final(self).state == state,
            final(self).stack == old(self).stack,
            final(self).context == old(self).context,
            final(self).func == old(self).func,
            final(self).made_from == old(self).made_from,
    {
        self.state = state;
    }
}

/// A fresh routine starts with its stack pointer inside its own stack,
/// aligned, and less than one alignment unit below the stack's top.
pub proof fn lemma_fresh_routine_starts_inside_its_stack(routine: RsRoutine, bootstrap_addr: usize)
    requires
        routine.is_fresh(bootstrap_addr),
    ensures
        routine.stack.bottom() <= routine.context.sp <= routine.stack.top(),
        routine.stack.top() - routine.context.sp < crate::stack::DEFAULT_STACK_ALIGN,
        routine.context.sp % crate::stack::DEFAULT_STACK_ALIGN == 0,
{
    crate::stack::lemma_aligned_top_within_stack(routine.stack);
}

}
