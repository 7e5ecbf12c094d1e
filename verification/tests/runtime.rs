use crossbeam_deque::Injector;
use rsroutine::{
    poll_step, PollAction, PollState, spawn, suspend_current, yield_now, Completion, IdleWorkers, Probe, RunOutcome, Runtime,
    RsRoutine, Task, WorkerId, WorkerState,
};

const BOOTSTRAP_ADDR: usize = 0x1000;
const ENTRY_ADDR: usize = 0x2000;

fn new_runtime(workers: usize) -> Runtime {
    Runtime::new(Injector::new(), workers, BOOTSTRAP_ADDR, ENTRY_ADDR)
}

fn task() -> (Task, usize) {
    let routine = RsRoutine::new_pinned(|| {}, BOOTSTRAP_ADDR, ENTRY_ADDR);
    let addr = routine.context.x19;
    (Task::new(routine), addr)
}

fn found_addr(probe: Probe) -> Option<usize> {
    match probe {
        Probe::Found(task) => Some(task.routine.context.x19),
        Probe::Retry => panic!("no other thread touches the queue"),
        Probe::Empty => None,
    }
}

/// Steal with retries, as the worker loop does.
fn search(worker: &mut WorkerState, runtime: &mut Runtime) -> Probe {
    loop {
        match worker.find_task(&mut runtime.incoming_queue) {
            Probe::Retry => continue,
            other => return other,
        }
    }
}

#[test]
fn idle_workers_are_taken_last_registered_first() {
    let mut idle = IdleWorkers::new(4);
    assert_eq!(idle.workers(), 4);
    assert_eq!(idle.take_one(), None);
    idle.register(WorkerId(1));
    idle.register(WorkerId(3));
    assert!(idle.is_registered(WorkerId(1)));
    assert!(idle.is_registered(WorkerId(3)));
    assert!(!idle.is_registered(WorkerId(0)));
    assert!(!idle.is_registered(WorkerId(9)));
    assert_eq!(idle.len(), 2);
    assert_eq!(idle.take_one(), Some(WorkerId(3)));
    assert!(!idle.is_registered(WorkerId(3)));
    assert_eq!(idle.take_one(), Some(WorkerId(1)));
    assert_eq!(idle.take_one(), None);
}

#[test]
fn cancel_withdraws_only_its_worker() {
    let mut idle = IdleWorkers::new(4);
    idle.register(WorkerId(0));
    idle.register(WorkerId(1));
    idle.register(WorkerId(2));
    idle.cancel(WorkerId(0));
    assert!(!idle.is_registered(WorkerId(0)));
    assert!(idle.is_registered(WorkerId(1)));
    assert!(idle.is_registered(WorkerId(2)));
    // The last listed worker took the cancelled one's place.
    assert_eq!(idle.take_one(), Some(WorkerId(1)));
    assert_eq!(idle.take_one(), Some(WorkerId(2)));
    // Cancelling a worker that is not registered changes nothing.
    idle.register(WorkerId(3));
    idle.cancel(WorkerId(2));
    assert_eq!(idle.len(), 1);
    assert_eq!(idle.take_one(), Some(WorkerId(3)));
}

#[test]
fn registering_again_after_take_is_allowed() {
    let mut idle = IdleWorkers::new(1);
    idle.register(WorkerId(0));
    assert_eq!(idle.take_one(), Some(WorkerId(0)));
    idle.register(WorkerId(0));
    assert_eq!(idle.len(), 1);
}

#[test]
fn schedule_injects_task_and_wakes_an_idle_worker() {
    let mut runtime = new_runtime(2);
    let (first, first_addr) = task();
    assert_eq!(runtime.schedule(first), None);
    runtime.register_idle(WorkerId(1));
    assert_eq!(runtime.idle_count(), 1);
    let (second, second_addr) = task();
    assert_eq!(runtime.schedule(second), Some(WorkerId(1)));
    assert_eq!(runtime.idle_count(), 0);
    assert_eq!(runtime.incoming_queue.len(), 2);

    let mut worker = WorkerState::new(WorkerId(0));
    assert_eq!(found_addr(search(&mut worker, &mut runtime)), Some(first_addr));
    assert_eq!(found_addr(search(&mut worker, &mut runtime)), Some(second_addr));
    assert_eq!(found_addr(search(&mut worker, &mut runtime)), None);
}

#[test]
fn cancel_idle_withdraws_a_parked_worker() {
    let mut runtime = new_runtime(3);
    runtime.register_idle(WorkerId(2));
    runtime.cancel_idle(WorkerId(2));
    assert_eq!(runtime.idle_count(), 0);
    let (t, _) = task();
    assert_eq!(runtime.schedule(t), None);
}

#[test]
fn spawn_injects_a_fresh_task() {
    let mut runtime = new_runtime(1);
    assert_eq!(spawn(&mut runtime, || {}), None);
    let mut worker = WorkerState::new(WorkerId(0));
    match search(&mut worker, &mut runtime) {
        Probe::Found(task) => {
            assert!(task.outcome.is_none());
            assert!(task.routine.func.is_some());
            assert_eq!(task.routine.context.x30, BOOTSTRAP_ADDR);
            assert_eq!(task.routine.context.x21, ENTRY_ADDR);
            assert_eq!(task.routine.context.x19, std::ptr::from_ref(&*task.routine).addr());
            assert_eq!(task.routine.context.sp, task.routine.stack.aligned_top());
        },
        _ => panic!("the spawned task must be found"),
    }
}

#[test]
fn even_tick_prefers_the_local_queue_odd_tick_the_injector() {
    let mut runtime = new_runtime(1);
    let mut worker = WorkerState::new(WorkerId(0));

    // Put one task in the local queue by running it until it yields.
    let (local, local_addr) = task();
    worker.begin_dispatch(local);
    yield_now(&mut worker);
    assert!(worker.finish_dispatch().is_none());
    assert_eq!(worker.local_queue.len(), 1);

    let (a, a_addr) = task();
    let (b, b_addr) = task();
    runtime.schedule(a);
    runtime.schedule(b);

    assert_eq!(worker.tick, 0);
    assert_eq!(found_addr(search(&mut worker, &mut runtime)), Some(local_addr));
    assert_eq!(worker.tick, 1);
    assert_eq!(found_addr(search(&mut worker, &mut runtime)), Some(a_addr));
    assert_eq!(worker.tick, 2);
    // The local queue is empty, so the injector is tried next.
    assert_eq!(found_addr(search(&mut worker, &mut runtime)), Some(b_addr));
    assert_eq!(worker.tick, 3);
    assert_eq!(found_addr(search(&mut worker, &mut runtime)), None);
    assert_eq!(worker.tick, 3);
}

#[test]
fn tick_wraps_around_when_a_task_is_found() {
    let mut runtime = new_runtime(1);
    let mut worker = WorkerState::new(WorkerId(0));
    worker.tick = u32::MAX;
    let (t, addr) = task();
    runtime.schedule(t);
    assert_eq!(found_addr(search(&mut worker, &mut runtime)), Some(addr));
    assert_eq!(worker.tick, 0);
}

#[test]
fn completed_task_hands_back_its_completion() {
    let mut worker = WorkerState::new(WorkerId(0));
    let (t, _) = task();
    worker.begin_dispatch(t);
    assert!(worker.current.is_some());
    suspend_current(
        &mut worker,
        RunOutcome::Completed(Completion { result: Err(Box::new("boom")) }),
    );
    let completion = worker.finish_dispatch().expect("a completed task hands back its completion");
    let payload = completion.result.expect_err("the task panicked");
    assert_eq!(payload.downcast_ref::<&str>(), Some(&"boom"));
    assert!(worker.current.is_none());
    assert_eq!(worker.local_queue.len(), 0);
}

#[test]
fn yielded_task_goes_back_with_its_outcome_cleared() {
    let mut worker = WorkerState::new(WorkerId(0));
    let (t, addr) = task();
    worker.begin_dispatch(t);
    yield_now(&mut worker);
    assert!(matches!(
        worker.current.as_ref().unwrap().outcome,
        Some(RunOutcome::Yielded)
    ));
    assert!(worker.finish_dispatch().is_none());
    assert!(worker.current.is_none());
    assert_eq!(worker.local_queue.len(), 1);
    let mut runtime = new_runtime(1);
    match search(&mut worker, &mut runtime) {
        Probe::Found(again) => {
            assert!(again.outcome.is_none());
            assert_eq!(again.routine.context.x19, addr);
        },
        _ => panic!("the yielded task is queued locally"),
    }
}

#[test]
fn new_worker_starts_idle_and_empty() {
    let worker = WorkerState::new(WorkerId(5));
    assert_eq!(worker.id, WorkerId(5));
    assert_eq!(worker.tick, 0);
    assert!(worker.current.is_none());
    assert!(worker.local_queue.is_empty());
    assert_eq!(worker.context.sp, 0);
}

#[test]
fn poll_step_registers_before_parking_and_withdraws_after() {
    assert_eq!(poll_step(PollState::Searching, true), (PollState::Searching, PollAction::Dispatch));
    assert_eq!(poll_step(PollState::Searching, false), (PollState::Rechecking, PollAction::RegisterIdle));
    assert_eq!(
        poll_step(PollState::Rechecking, true),
        (PollState::Searching, PollAction::CancelIdleAndDispatch)
    );
    assert_eq!(poll_step(PollState::Rechecking, false), (PollState::Parked, PollAction::Park));
    assert_eq!(poll_step(PollState::Parked, false), (PollState::Searching, PollAction::CancelIdle));
    assert_eq!(poll_step(PollState::Parked, true), (PollState::Searching, PollAction::CancelIdle));
}

#[test]
fn idle_count_counts_set_flags_and_stays_within_worker_count() {
    let mut runtime = new_runtime(3);
    assert_eq!(runtime.idle_count(), 0);
    for id in 0..3 {
        runtime.register_idle(WorkerId(id));
    }
    assert_eq!(runtime.idle_count(), 3);
    let flagged = (0..3)
        .filter(|id| runtime.idle_workers.is_registered(WorkerId(*id)))
        .count();
    assert_eq!(flagged, runtime.idle_count());
    runtime.cancel_idle(WorkerId(1));
    assert_eq!(runtime.idle_count(), 2);
    assert!(!runtime.idle_workers.is_registered(WorkerId(1)));
}
