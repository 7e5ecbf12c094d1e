# rsroutine

A coroutine runtime: tasks run on stacks of their own, a pool of workers
hands them out, a task that yields resumes later on the worker it ran on, and
a parked worker is woken when a task is spawned.

`src/` is the verified library:

- `stack.rs`, `context.rs`: a routine's zeroed stack and the register
  context it starts from.
- `func.rs`, `routine.rs`: the task body and the routine that runs it.
- `scheduler.rs`: a single-threaded FIFO scheduler of routines.
- `idle.rs`: the registry of parked workers.
- `queue.rs`: the crossbeam-deque queues the runtime uses, and the
  worker's own queue `LocalQueue`.
- `runtime.rs`: spawning, the worker's search for a task and the
  dispatch / suspend transitions of a task, and the step rule of a
  worker's polling loop.

`app/` is the host side: the process-wide runtime with its worker threads,
the thread-local worker pointer, the AArch64 context switch and the entry
functions that first run on a routine's stack.
