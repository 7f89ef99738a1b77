use nimbu_core::{
    CommandOutcome, Delay, EventOutcome, ExecutionEvent, RetryPolicy, Scheduler, SchedulerCommand,
    StatusKind, Task, TaskStatus, TaskTransitionError,
};

fn running(max_retries: u32, backoff_ms: u64) -> Task {
    let mut t = Task::builder(vec![1, 2, 3])
        .retry_policy(
            RetryPolicy::builder()
                .max_retries(max_retries)
                .backoff_ms(backoff_ms)
                .build(),
        )
        .build();
    t.assign().unwrap();
    t.start().unwrap();
    t
}

#[test]
fn delayed_task_not_visible_before_due() {
    let mut s = Scheduler::new();
    let t = Task::builder(vec![]).build();
    let id = t.id.clone();
    let due = s.schedule(t, 0, Delay::from_secs(10));
    assert_eq!(due, 10_000);
    assert_eq!(s.next_due(), Some(10_000));
    assert!(s.pop_expired(9_000).is_none());
    assert!(s.pop_expired(9_999).is_none());
    assert_eq!(s.pop_expired(10_000).unwrap().id, id);
    assert!(s.pop_expired(20_000).is_none());
    assert_eq!(s.next_due(), None);
}

#[test]
fn expiries_come_out_earliest_first() {
    let mut s = Scheduler::new();
    let a = Task::builder(vec![1]).build();
    let b = Task::builder(vec![2]).build();
    let c = Task::builder(vec![3]).build();
    let (ia, ib, ic) = (a.id.clone(), b.id.clone(), c.id.clone());
    s.schedule(a, 0, Delay { millis: 300 });
    s.schedule(b, 0, Delay { millis: 100 });
    s.schedule(c, 50, Delay { millis: 50 });
    assert_eq!(s.pop_expired(1000).unwrap().id, ib);
    assert_eq!(s.pop_expired(1000).unwrap().id, ic);
    assert_eq!(s.pop_expired(1000).unwrap().id, ia);
    assert!(s.pop_expired(1000).is_none());
}

#[test]
fn schedule_saturates_due() {
    let mut s = Scheduler::new();
    let due = s.schedule(Task::builder(vec![]).build(), u64::MAX - 5, Delay { millis: 10 });
    assert_eq!(due, u64::MAX);
}

#[test]
fn retry_law_fixed_backoff_two_retries() {
    let mut s = Scheduler::new();
    let mut now: u64 = 0;
    let mut t = running(2, 100);
    let mut seen = Vec::new();
    for round in 0..3 {
        let out = s.handle_execution_event(ExecutionEvent::RetryableFailure(t, format!("boom {round}")), now);
        match out {
            EventOutcome::RetryScheduled { due } => {
                assert_eq!(due, now + 100);
                assert!(s.pop_expired(due - 1).is_none());
                let mut back = s.pop_expired(due).unwrap();
                if let TaskStatus::Failed { attempt, .. } = &back.status {
                    seen.push(*attempt);
                }
                back.assign().unwrap();
                back.start().unwrap();
                now = due;
                t = back;
            }
            EventOutcome::FailedPermanent(done) => {
                assert_eq!(round, 2);
                assert_eq!(
                    done.status,
                    TaskStatus::FailedPermanent { error: "retry limit exceeded".to_string() }
                );
                assert_eq!(done.attempts, 2);
                assert_eq!(seen, vec![1, 2]);
                return;
            }
            _ => panic!("unexpected outcome"),
        }
    }
    panic!("the third failure must not re-enter Failed");
}

#[test]
fn retry_backoff_uses_new_count() {
    let mut s = Scheduler::new();
    let mut t = running(5, 0);
    t.retry_policy.strategy = nimbu_core::BackoffStrategy::Exponential {
        base: Delay::from_secs(1),
        factor: 2,
        max_delay: Delay::from_secs(5),
    };
    match s.handle_execution_event(ExecutionEvent::RetryableFailure(t, "x".to_string()), 1000) {
        EventOutcome::RetryScheduled { due } => assert_eq!(due, 3000),
        _ => panic!("expected a retry"),
    }
}

#[test]
fn completed_and_fatal_events() {
    let mut s = Scheduler::new();
    match s.handle_execution_event(ExecutionEvent::Completed(running(3, 10)), 0) {
        EventOutcome::Completed(t) => assert_eq!(t.status, TaskStatus::Completed),
        _ => panic!("expected completion"),
    }
    match s.handle_execution_event(ExecutionEvent::FatalFailure(running(3, 10), "bad".to_string()), 0) {
        EventOutcome::FailedPermanent(t) => {
            assert_eq!(t.status, TaskStatus::FailedPermanent { error: "bad".to_string() })
        }
        _ => panic!("expected permanent failure"),
    }
    assert_eq!(s.len(), 0);
}

#[test]
fn event_not_fitting_status_is_rejected() {
    let mut s = Scheduler::new();
    let pending = Task::builder(vec![]).build();
    match s.handle_execution_event(ExecutionEvent::Completed(pending), 0) {
        EventOutcome::Rejected(t, e) => {
            assert_eq!(t.status, TaskStatus::Pending);
            assert_eq!(
                e,
                TaskTransitionError::IllegalTransition {
                    from: StatusKind::Pending,
                    to: StatusKind::Completed
                }
            );
        }
        _ => panic!("expected rejection"),
    }
    let pending = Task::builder(vec![]).build();
    assert!(matches!(
        s.handle_execution_event(ExecutionEvent::RetryableFailure(pending, "e".to_string()), 0),
        EventOutcome::Rejected(_, TaskTransitionError::IllegalTransition { .. })
    ));
    assert_eq!(s.len(), 0);
}

#[test]
fn shutdown_abandons_waiting_tasks() {
    let mut s = Scheduler::new();
    let a = Task::builder(vec![1]).build();
    let b = Task::builder(vec![2]).build();
    let (ia, ib) = (a.id.clone(), b.id.clone());
    assert!(matches!(
        s.handle_command(SchedulerCommand::Schedule { task: a, delay: Delay { millis: 5 } }, 0),
        CommandOutcome::Scheduled { due: 5 }
    ));
    s.handle_command(SchedulerCommand::Schedule { task: b, delay: Delay { millis: 1 } }, 0);
    match s.handle_command(SchedulerCommand::Shutdown, 0) {
        CommandOutcome::Stopped(v) => {
            assert_eq!(v.len(), 2);
            assert_eq!(v[0].id, ia);
            assert_eq!(v[1].id, ib);
        }
        _ => panic!("expected stop"),
    }
    assert_eq!(s.len(), 0);
    assert!(s.pop_expired(u64::MAX).is_none());
}
