//! A small coroutine runtime: each task runs on a stack of its own, and a
//! pool of workers hands tasks out in FIFO order, alternating between tasks
//! injected from outside and tasks that yielded on the worker itself.
//!
//! This crate holds the runtime's bookkeeping (stacks, saved register
//! contexts, routines, scheduler queues, idle-worker registry and worker
//! state transitions) with its contracts. The machine-level context switch
//! and the worker threads are driven by the embedding program.

mod context;
mod func;
mod idle;
mod queue;
mod routine;
mod runtime;
mod scheduler;
mod stack;

pub use context::Context;
pub use func::{Func, Job};
pub use idle::{IdleWorkers, WorkerId};
pub use routine::{ensures_of, RoutineState, RsRoutine, DEFAULT_STACK_SIZE};
pub use queue::{injector_tasks, local_tasks, pop_step, steal_step, LocalQueue};
pub use runtime::{
    poll_step, spawn, suspend_current, yield_now, Completion, PollAction, PollState, Probe, RunOutcome,
    Runtime, Task, WorkerState,
};
pub use scheduler::{RoutineId, Scheduler};
pub use stack::{Stack, DEFAULT_STACK_ALIGN};
