use rsroutine::{RoutineId, RoutineState, Scheduler};

#[test]
fn scheduler_new_starts_empty() {
    let mut scheduler = Scheduler::new();

    assert_eq!(scheduler.routine_count(), 0);
    assert_eq!(scheduler.queue_len(), 0);
    assert_eq!(scheduler.next(), None);
}

#[test]
fn scheduler_spawn_stores_routine_and_returns_id() {
    let mut scheduler = Scheduler::new();

    let first_id = scheduler.spawn(Box::new(|| {}));
    let second_id = scheduler.spawn(Box::new(|| {}));

    assert_eq!(first_id, RoutineId(0));
    assert_eq!(second_id, RoutineId(1));
    assert_eq!(scheduler.routine_count(), 2);
    assert!(scheduler.routine(first_id).is_some());
    assert!(scheduler.routine(second_id).is_some());
}

#[test]
fn scheduler_spawn_queues_routines_fifo() {
    let mut scheduler = Scheduler::new();
    let first_id = scheduler.spawn(Box::new(|| {}));
    let second_id = scheduler.spawn(Box::new(|| {}));

    assert_eq!(scheduler.next(), Some(first_id));
    assert_eq!(scheduler.get_state(first_id), Some(RoutineState::Running));
    assert_eq!(scheduler.next(), Some(second_id));
    assert_eq!(scheduler.get_state(second_id), Some(RoutineState::Running));
    assert_eq!(scheduler.next(), None);
}

#[test]
fn scheduler_routine_accessors_reject_unknown_id() {
    let mut scheduler = Scheduler::new();
    let unknown_id = RoutineId(0);

    assert!(scheduler.routine(unknown_id).is_none());
    assert!(scheduler.routine_mut(unknown_id).is_none());
    assert_eq!(scheduler.get_state(unknown_id), None);
    assert_eq!(scheduler.mark(unknown_id, RoutineState::Running), None);
}

#[test]
fn scheduler_mark_updates_routine_state() {
    let mut scheduler = Scheduler::new();
    let routine_id = scheduler.spawn(Box::new(|| {}));

    assert_eq!(
        scheduler.get_state(routine_id),
        Some(RoutineState::Runnable)
    );

    scheduler
        .mark(routine_id, RoutineState::Parked)
        .expect("spawned routine must be stored");
    assert_eq!(scheduler.get_state(routine_id), Some(RoutineState::Parked));

    scheduler
        .mark(routine_id, RoutineState::Finished)
        .expect("spawned routine must be stored");
    assert_eq!(
        scheduler.get_state(routine_id),
        Some(RoutineState::Finished)
    );
}

#[test]
fn scheduler_routine_mut_allows_direct_state_update() {
    let mut scheduler = Scheduler::new();
    let routine_id = scheduler.spawn(Box::new(|| {}));
    let routine = scheduler
        .routine_mut(routine_id)
        .expect("spawned routine must be stored");

    routine.set_state(RoutineState::Running);

    let routine = scheduler
        .routine(routine_id)
        .expect("spawned routine must be stored");
    assert_eq!(routine.state(), RoutineState::Running);
}

#[test]
fn routine_id_inner_is_its_index() {
    assert_eq!(RoutineId(5).inner(), 5);
}

#[test]
fn mark_leaves_other_routines_alone() {
    let mut scheduler = Scheduler::new();
    let a = scheduler.spawn(|| {});
    let b = scheduler.spawn(|| {});
    scheduler.mark(a, RoutineState::Parked).unwrap();
    assert_eq!(scheduler.get_state(a), Some(RoutineState::Parked));
    assert_eq!(scheduler.get_state(b), Some(RoutineState::Runnable));
    assert_eq!(scheduler.queue_len(), 2);
}

#[test]
fn spawned_routines_use_the_scheduler_entry_points() {
    let mut scheduler = Scheduler::with_entry_points(0x1000, 0x2000);
    let id = scheduler.spawn(|| {});
    let routine = scheduler.routine(id).unwrap();
    assert_eq!(routine.context.x30, 0x1000);
    assert_eq!(routine.context.x21, 0x2000);
    assert_eq!(routine.context.x19, std::ptr::from_ref(routine).addr());
    assert_eq!(scheduler.context_mut().sp, 0);
}

#[test]
fn next_after_spawn_between_runs_keeps_fifo_order() {
    let mut scheduler = Scheduler::new();
    let a = scheduler.spawn(|| {});
    assert_eq!(scheduler.next(), Some(a));
    let b = scheduler.spawn(|| {});
    let c = scheduler.spawn(|| {});
    assert_eq!(scheduler.next(), Some(b));
    assert_eq!(scheduler.next(), Some(c));
    assert_eq!(scheduler.next(), None);
    assert_eq!(b, RoutineId(1));
    assert_eq!(c, RoutineId(2));
}
