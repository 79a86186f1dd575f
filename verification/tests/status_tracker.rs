use batch_dispatcher::{StatusTracker, Step};

fn counts(t: &StatusTracker) -> [usize; 7] {
    [
        t.num_tasks_started,
        t.num_tasks_in_progress,
        t.num_tasks_succeeded,
        t.num_tasks_failed,
        t.num_rate_limit_errors,
        t.num_api_errors,
        t.num_other_errors,
    ]
}

#[test]
fn new_tracker_is_all_zero() {
    assert_eq!(counts(&StatusTracker::new()), [0, 0, 0, 0, 0, 0, 0]);
    assert_eq!(counts(&StatusTracker::default()), [0, 0, 0, 0, 0, 0, 0]);
}

#[test]
fn task_started_raises_started_only() {
    let mut t = StatusTracker::new();
    t.task_started();
    t.task_started();
    assert_eq!(counts(&t), [2, 0, 0, 0, 0, 0, 0]);
}

#[test]
fn dispatch_began_raises_in_progress_only() {
    let mut t = StatusTracker::new();
    t.dispatch_began();
    assert_eq!(counts(&t), [0, 1, 0, 0, 0, 0, 0]);
}

#[test]
fn dispatch_ended_lowers_in_progress_only() {
    let mut t = StatusTracker::new();
    t.dispatch_began();
    t.dispatch_began();
    t.dispatch_ended();
    assert_eq!(counts(&t), [0, 1, 0, 0, 0, 0, 0]);
}

#[test]
fn task_failed_raises_failed_only() {
    let mut t = StatusTracker::new();
    t.task_failed();
    assert_eq!(counts(&t), [0, 0, 0, 1, 0, 0, 0]);
}

#[test]
fn task_succeeded_raises_succeeded_only() {
    let mut t = StatusTracker::new();
    t.task_succeeded();
    t.task_succeeded();
    assert_eq!(counts(&t), [0, 0, 2, 0, 0, 0, 0]);
}

#[test]
fn record_takes_each_step_of_a_task() {
    let mut t = StatusTracker::new();
    t.record(Step::Admitted);
    assert_eq!(counts(&t), [1, 0, 0, 0, 0, 0, 0]);
    t.record(Step::Began);
    assert_eq!(counts(&t), [1, 1, 0, 0, 0, 0, 0]);
    t.record(Step::Retried);
    assert_eq!(counts(&t), [1, 0, 0, 0, 0, 0, 0]);
    t.record(Step::Began);
    t.record(Step::Failed);
    assert_eq!(counts(&t), [1, 0, 0, 1, 0, 0, 0]);
    t.record(Step::Admitted);
    t.record(Step::Began);
    t.record(Step::Succeeded);
    assert_eq!(counts(&t), [2, 0, 1, 1, 0, 0, 0]);
}

#[test]
fn error_counters_rise_one_by_one() {
    let mut t = StatusTracker::new();
    t.rate_limit_error();
    t.api_error();
    t.api_error();
    t.other_error();
    t.other_error();
    t.other_error();
    assert_eq!(counts(&t), [0, 0, 0, 0, 1, 2, 3]);
}

#[test]
fn snapshot_and_clone_copy_every_counter() {
    let mut t = StatusTracker::new();
    t.task_started();
    t.dispatch_began();
    t.task_succeeded();
    t.rate_limit_error();
    let snap = t.snapshot();
    assert_eq!(counts(&snap), [1, 1, 1, 0, 1, 0, 0]);
    assert_eq!(counts(&t.clone()), counts(&snap));
    t.task_failed();
    t.dispatch_ended();
    assert_eq!(counts(&snap), [1, 1, 1, 0, 1, 0, 0]);
    assert_eq!(counts(&t), [1, 0, 1, 1, 1, 0, 0]);
}
