use nimbu_core::{
    BackoffStrategy, Delay, JobId, RetryPolicy, StatusKind, Task, TaskId, TaskStatus,
    TaskTransitionError,
};

#[test]
fn fresh_ids_are_hyphenated_and_distinct() {
    let a = TaskId::new();
    let b = TaskId::new();
    assert_eq!(a.0.len(), 36);
    assert_ne!(a, b);
    assert_eq!(JobId::new().0.len(), 36);
}

#[test]
fn builder_defaults() {
    let t = Task::new(vec![4, 5]).build();
    assert_eq!(t.status, TaskStatus::Pending);
    assert_eq!(t.attempts, 0);
    assert_eq!(t.payload, vec![4, 5]);
    assert_eq!(t.retry_policy.max_retries, 3);
    assert_eq!(t.retry_policy.strategy, BackoffStrategy::Fixed(Delay { millis: 1000 }));
    assert_eq!(t.updated_at, t.created_at);
    assert_eq!(t.id.0.len(), 36);
}

#[test]
fn builder_keeps_given_fields() {
    let id = TaskId("task-1".to_string());
    let job = JobId("job-1".to_string());
    let t = Task::builder(vec![])
        .id(id.clone())
        .job_id(job.clone())
        .status(TaskStatus::Running)
        .attempts(2)
        .build();
    assert_eq!(t.id, id);
    assert_eq!(t.job_id, job);
    assert_eq!(t.status, TaskStatus::Running);
    assert_eq!(t.attempts, 2);
}

#[test]
fn status_names_and_terminality() {
    assert_eq!(TaskStatus::Pending.as_str(), "Pending");
    assert_eq!(TaskStatus::Assigned.as_str(), "Assigned");
    assert_eq!(TaskStatus::Running.as_str(), "Running");
    assert_eq!(TaskStatus::Completed.as_str(), "Completed");
    let failed = TaskStatus::Failed { attempt: 1, error: "e".to_string() };
    assert_eq!(failed.as_str(), "Failed");
    let perm = TaskStatus::FailedPermanent { error: "e".to_string() };
    assert_eq!(perm.as_str(), "FailedPermanent");
    assert!(TaskStatus::Completed.is_terminal());
    assert!(perm.is_terminal());
    assert!(!failed.is_terminal());
    assert!(!TaskStatus::Running.is_terminal());
}

#[test]
fn every_unlisted_pair_is_illegal() {
    let statuses = vec![
        TaskStatus::Pending,
        TaskStatus::Assigned,
        TaskStatus::Running,
        TaskStatus::Completed,
        TaskStatus::Failed { attempt: 1, error: "e".to_string() },
        TaskStatus::FailedPermanent { error: "e".to_string() },
    ];
    for s in &statuses {
        let k = s.kind();
        let assign = s.mark_as_assigned();
        assert_eq!(assign.is_ok(), k == StatusKind::Pending || k == StatusKind::Failed);
        if let Err(e) = assign {
            assert_eq!(e, TaskTransitionError::IllegalTransition { from: k, to: StatusKind::Assigned });
        }
        assert_eq!(s.mark_as_running().is_ok(), k == StatusKind::Assigned);
        assert_eq!(s.mark_as_completed().is_ok(), k == StatusKind::Running);
        let fail_ok = k == StatusKind::Running || k == StatusKind::Failed;
        assert_eq!(s.mark_as_failed(1, "x".to_string()).is_ok(), fail_ok);
        assert_eq!(s.mark_as_failed_permanent("x".to_string()).is_ok(), fail_ok);
    }
}

#[test]
fn refused_transition_leaves_task_unchanged() {
    let mut t = Task::builder(vec![]).build();
    let before = t.updated_at;
    assert_eq!(
        t.complete(),
        Err(TaskTransitionError::IllegalTransition { from: StatusKind::Pending, to: StatusKind::Completed })
    );
    assert_eq!(t.status, TaskStatus::Pending);
    assert_eq!(t.updated_at, before);
    assert!(t.mark_permanent_failure("x".to_string()).is_err());
    assert_eq!(t.status, TaskStatus::Pending);
}

#[test]
fn retry_budget_and_redelivery() {
    let mut t = Task::builder(vec![])
        .retry_policy(RetryPolicy::builder().max_retries(2).backoff_ms(100).build())
        .build();
    t.assign().unwrap();
    t.start().unwrap();
    t.mark_retryable_failure("one".to_string()).unwrap();
    assert_eq!(t.status, TaskStatus::Failed { attempt: 1, error: "one".to_string() });
    t.assign().unwrap();
    t.start().unwrap();
    t.mark_retryable_failure("two".to_string()).unwrap();
    assert_eq!(t.status, TaskStatus::Failed { attempt: 2, error: "two".to_string() });
    assert_eq!(t.mark_retryable_failure("three".to_string()), Err(TaskTransitionError::RetryLimitExceeded));
    assert_eq!(t.attempts, 2);
    t.mark_permanent_failure("done".to_string()).unwrap();
    assert!(t.status.is_terminal());
    assert!(t.assign().is_err());
}

#[test]
fn can_retry_compares_with_max() {
    let p = RetryPolicy::builder().max_retries(2).build();
    assert!(p.can_retry(0));
    assert!(p.can_retry(1));
    assert!(!p.can_retry(2));
}

#[test]
fn status_descriptions() {
    assert_eq!(TaskStatus::Pending.describe(), "Pending");
    assert_eq!(TaskStatus::Completed.describe(), "Completed");
    let failed = TaskStatus::Failed { attempt: 120, error: "timeout".to_string() };
    assert_eq!(failed.describe(), "Failed(attempts=120, error=timeout)");
    let first = TaskStatus::Failed { attempt: 0, error: String::new() };
    assert_eq!(first.describe(), "Failed(attempts=0, error=)");
    let perm = TaskStatus::FailedPermanent { error: "disk".to_string() };
    assert_eq!(perm.describe(), "FailedPermanent(error=disk)");
    let big = TaskStatus::Failed { attempt: u32::MAX, error: "e".to_string() };
    assert_eq!(big.describe(), "Failed(attempts=4294967295, error=e)");
}
