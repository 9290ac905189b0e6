use trading_core::scheduler::{TaskKind, TaskScheduler, TickOutcome};

#[test]
fn recurring_task_registers_with_first_due_time() {
    let mut s = TaskScheduler::new();
    s.schedule_recurring(1, "monitor".to_string(), 60_000, 100).unwrap();
    let st = s.get_task_status(1).unwrap();
    assert_eq!(st.next_run, 60_100);
    assert_eq!(st.run_count, 0);
    assert_eq!(st.error_count, 0);
    assert!(!st.is_running);
    assert!(matches!(st.kind, TaskKind::Recurring));
}

#[test]
fn duplicate_id_replaces_prior_registration() {
    let mut s = TaskScheduler::new();
    s.schedule_recurring(1, "monitor".to_string(), 60_000, 100).unwrap();
    s.schedule_recurring(1, "monitor".to_string(), 30_000, 200).unwrap();
    assert_eq!(s.get_all_task_statuses().len(), 1);
    let st = s.get_task_status(1).unwrap();
    assert_eq!(st.interval_ms, 30_000);
    assert_eq!(st.next_run, 30_200);
}

#[test]
fn registration_rejects_out_of_bounds_interval() {
    let mut s = TaskScheduler::new();
    assert!(s.schedule_recurring(1, "bad".to_string(), -1, 100).is_err());
    assert!(s.get_task_status(1).is_none());
}

#[test]
fn tick_refused_while_stopped() {
    let mut s = TaskScheduler::new();
    s.schedule_once(1, "warmup".to_string(), 10, 100).unwrap();
    // A one-shot task that wakes after the scheduler stopped observes
    // the stopped flag and does not run.
    assert!(matches!(s.begin_run(1), TickOutcome::SkippedStopped));
    s.start();
    assert!(matches!(s.begin_run(2), TickOutcome::UnknownTask));
}

#[test]
fn tick_never_overlaps_a_running_tick() {
    // Non-overlap: while a tick of task 1 runs, a second begin_run of
    // the same id is skipped, not queued; after finish_run the next
    // tick may start.
    let mut s = TaskScheduler::new();
    s.start();
    s.schedule_recurring(1, "generate".to_string(), 1_000, 100).unwrap();
    assert!(matches!(s.begin_run(1), TickOutcome::Started));
    assert!(matches!(s.begin_run(1), TickOutcome::SkippedOverlap));
    assert!(matches!(s.begin_run(1), TickOutcome::SkippedOverlap));
    assert!(s.finish_run(1, 1_200, true));
    assert!(matches!(s.begin_run(1), TickOutcome::Started));
}

#[test]
fn finish_run_updates_bookkeeping_and_failures_count_per_task() {
    let mut s = TaskScheduler::new();
    s.start();
    s.schedule_recurring(1, "generate".to_string(), 1_000, 100).unwrap();
    s.schedule_recurring(2, "monitor".to_string(), 1_000, 100).unwrap();

    assert!(matches!(s.begin_run(1), TickOutcome::Started));
    s.finish_run(1, 1_500, false);
    let st = s.get_task_status(1).unwrap();
    assert_eq!(st.run_count, 1);
    assert_eq!(st.error_count, 1);
    assert_eq!(st.last_run, Some(1_500));
    assert_eq!(st.next_run, 2_500);
    assert!(!st.is_running);
    // The sibling task is untouched by the failure.
    let other = s.get_task_status(2).unwrap();
    assert_eq!(other.error_count, 0);
}

#[test]
fn one_shot_task_fires_at_most_once() {
    let mut s = TaskScheduler::new();
    s.start();
    s.schedule_once(1, "warmup".to_string(), 50, 100).unwrap();
    assert!(matches!(s.begin_run(1), TickOutcome::Started));
    assert!(s.finish_run(1, 200, true));
    // Finished one-shot tasks are dropped: no second firing.
    assert!(s.get_task_status(1).is_none());
    assert!(matches!(s.begin_run(1), TickOutcome::UnknownTask));
}

#[test]
fn cancel_removes_the_task() {
    let mut s = TaskScheduler::new();
    s.start();
    s.schedule_recurring(1, "generate".to_string(), 1_000, 100).unwrap();
    assert!(s.cancel_task(1));
    assert!(!s.cancel_task(1));
    assert!(matches!(s.begin_run(1), TickOutcome::UnknownTask));
}

#[test]
fn stop_clears_running_marks() {
    let mut s = TaskScheduler::new();
    s.start();
    s.schedule_recurring(1, "generate".to_string(), 1_000, 100).unwrap();
    assert!(matches!(s.begin_run(1), TickOutcome::Started));
    s.stop();
    let st = s.get_task_status(1).unwrap();
    assert!(!st.is_running);
    assert!(matches!(s.begin_run(1), TickOutcome::SkippedStopped));
}

#[test]
fn due_tasks_lists_exactly_the_due_ones() {
    let mut s = TaskScheduler::new();
    s.start();
    s.schedule_recurring(1, "due".to_string(), 1_000, 100).unwrap();
    s.schedule_recurring(2, "later".to_string(), 50_000, 100).unwrap();
    s.schedule_recurring(3, "busy".to_string(), 1_000, 100).unwrap();
    assert!(matches!(s.begin_run(3), TickOutcome::Started));
    let due = s.due_tasks(2_000);
    assert_eq!(due, vec![1]);
}
