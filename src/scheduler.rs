//! The scheduling actor's state: a delay structure keyed by expiry instant,
//! and the decisions taken on each command and each execution result.
//!
//! Time is a millisecond count handed in by the caller, so the same decisions
//! run under a real clock or a virtual one. The caller performs what the
//! decisions ask for: it delivers the tasks that [`Scheduler::pop_expired`]
//! hands out to the ready queue, and stops on [`CommandOutcome::Stopped`].

use crate::backoff::{backoff_millis, compute_backoff};
use crate::task::{
    in_table, structural, StatusKind, Task, TaskStatus, TaskTransitionError, TransitionEvent,
};
use crate::time::Delay;
use vstd::prelude::*;

verus! {

/// The outcome of running a task, as reported by a worker.
#[derive(Debug)]
pub enum ExecutionEvent {
    Completed(Task),
    RetryableFailure(Task, String),
    FatalFailure(Task, String),
}

/// What the scheduling actor is asked to do.
#[derive(Debug)]
pub enum SchedulerCommand {
    Schedule { task: Task, delay: Delay },
    ExecutionResult(ExecutionEvent),
    Shutdown,
}

/// A task waiting in the delay structure until `due`.
#[derive(Debug)]
pub struct Scheduled {
    pub due: u64,
    pub task: Task,
}

/// What became of a task whose execution result was handled.
#[derive(Debug)]
pub enum EventOutcome {
    /// The task completed; it is handed back, terminal.
    Completed(Task),
    /// The task failed and waits in the delay structure until `due`.
    RetryScheduled { due: u64 },
    /// The task failed for good; it is handed back, terminal.
    FailedPermanent(Task),
    /// The result did not fit the task's status; the task is handed back unchanged.
    Rejected(Task, TaskTransitionError),
}

/// What a command led to.
#[derive(Debug)]
pub enum CommandOutcome {
    Scheduled { due: u64 },
    Event(EventOutcome),
    /// The actor stops; the tasks still waiting are abandoned and handed back.
    Stopped(Vec<Task>),
}

/// The message a task carries when its retries are used up.
pub const RETRY_LIMIT_MESSAGE: &'static str = "retry limit exceeded";

/// `now + delay`, saturating at the end of time.
pub open spec fn due_at(now: u64, delay: Delay) -> u64 {
    if now + delay.millis <= u64::MAX {
        (now + delay.millis) as u64
    } else {
        u64::MAX
    }
}

/// The index of the earliest entry: the smallest `due`, and among equal
/// ones the entry that went in first.
pub open spec fn earliest_index(s: Seq<Scheduled>) -> int
    decreases s.len(),
{
    if s.len() <= 1 {
        0
    } else {
        let k = earliest_index(s.drop_last());
        if s.last().due < s[k].due {
            s.len() - 1
        } else {
            k
        }
    }
}

/// Whether some entry of `s` is due at `now`.
pub open spec fn any_due(s: Seq<Scheduled>, now: u64) -> bool {
    exists|j: int| 0 <= j < s.len() && #[trigger] s[j].due <= now
}

/// The earliest entry is in range, no entry is due before it, and the
/// entries before it are due strictly later.
pub proof fn lemma_earliest_is_first_minimum(s: Seq<Scheduled>)
    requires
        s.len() > 0,
    ensures
        0 <= earliest_index(s) < s.len(),
        forall|j: int| 0 <= j < s.len() ==> #[trigger] s[j].due >= s[earliest_index(s)].due,
        forall|j: int| 0 <= j < earliest_index(s) ==> #[trigger] s[j].due > s[earliest_index(s)].due,
    decreases s.len(),
{
    if s.len() > 1 {
        let t = s.drop_last();
        lemma_earliest_is_first_minimum(t);
        assert forall|j: int| 0 <= j < t.len() implies #[trigger] s[j].due == t[j].due by {}
    }
}

/// What handling the report `event` at `now` does: `r` is what it returns
/// and `after` the delay structure it leaves, `before` the one it found.
pub open spec fn event_handled(
    before: Seq<Scheduled>,
    after: Seq<Scheduled>,
    event: ExecutionEvent,
    now: u64,
    r: EventOutcome,
) -> bool {
    &&& match event {
        ExecutionEvent::Completed(t) => match structural(
            t.status,
            TransitionEvent::Complete,
            TaskStatus::Completed,
        ) {
            Ok(_) => r matches EventOutcome::Completed(u) && u.status
                == TaskStatus::Completed && u.same_but_status(t),
            Err(e) => r == EventOutcome::Rejected(t, e),
        },
        ExecutionEvent::RetryableFailure(t, error) => {
            if !in_table(t.status.kind_spec(), TransitionEvent::Fail) {
                r == EventOutcome::Rejected(
                    t,
                    TaskTransitionError::IllegalTransition {
                        from: t.status.kind_spec(),
                        to: StatusKind::Failed,
                    },
                )
            } else if t.attempts < t.retry_policy.max_retries {
                let due = due_at(
                    now,
                    Delay {
                        millis: backoff_millis(
                            (t.attempts + 1) as nat,
                            t.retry_policy.strategy,
                        ) as u64,
                    },
                );
                &&& r == EventOutcome::RetryScheduled { due }
                &&& after.len() == before.len() + 1
                &&& after.drop_last() == before
                &&& after.last().due == due
                &&& after.last().task.status == (TaskStatus::Failed {
                    attempt: (t.attempts + 1) as u32,
                    error,
                })
                &&& after.last().task.attempts == t.attempts + 1
                &&& after.last().task.same_identity(t)
            } else {
                r matches EventOutcome::FailedPermanent(u) && u.status matches
                    TaskStatus::FailedPermanent { error: m } && m@
                    == RETRY_LIMIT_MESSAGE@ && u.same_but_status(t)
            }
        },
        ExecutionEvent::FatalFailure(t, error) => match structural(
            t.status,
            TransitionEvent::FailFatal,
            TaskStatus::FailedPermanent { error },
        ) {
            Ok(s) => r matches EventOutcome::FailedPermanent(u) && u.status == s
                && u.same_but_status(t),
            Err(e) => r == EventOutcome::Rejected(t, e),
        },
    }
    &&& !(r is RetryScheduled) ==> after == before
}

/// The scheduling actor's delay structure.
pub struct Scheduler {
    entries: Vec<Scheduled>,
}

impl Scheduler {
    /// The waiting entries, in the order they went in.
    pub closed spec fn entries(&self) -> Seq<Scheduled> {
        self.entries@
    }

    pub fn new() -> (r: Scheduler)
        ensures
            r.entries() == Seq::<Scheduled>::empty(),
    {
        Scheduler { entries: Vec::new() }
    }

    /// How many tasks wait.
    pub fn len(&self) -> (r: usize)
        ensures
            r == self.entries().len(),
    {
        self.entries.len()
    }

    /// Puts `task` in the delay structure, due `delay` after `now`.
    pub fn schedule(&mut self, task: Task, now: u64, delay: Delay) -> (due: u64)
        ensures
            due == due_at(now, delay),
            final(self).entries() == old(self).entries().push(Scheduled { due, task }),
    {
        let due: u64 = if delay.millis <= u64::MAX - now {
            now + delay.millis
        } else {
            u64::MAX
        };
        self.entries.push(Scheduled { due, task });
        due
    }

    fn earliest(&self) -> (k: usize)
        requires
            self.entries().len() > 0,
        ensures
            k == earliest_index(self.entries()),
    {
        let n = self.entries.len();
        let mut best: usize = 0;
        let mut i: usize = 1;
        while i < n
            invariant
                n == self.entries().len(),
                1 <= i <= n,
                best == earliest_index(self.entries().subrange(0, i as int)),
                0 <= best < i,
            decreases n - i,
        {
            let ghost s = self.entries();
            proof {
                let t = s.subrange(0, i as int + 1);
                assert(t.drop_last() == s.subrange(0, i as int));
                lemma_earliest_is_first_minimum(s.subrange(0, i as int));
            }
            if self.entries[i].due < self.entries[best].due {
                best = i;
            }
            i = i + 1;
        }
        proof {
            assert(self.entries().subrange(0, n as int) == self.entries());
        }
        best
    }

    /// The instant at which the earliest entry falls due, if any waits.
    pub fn next_due(&self) -> (r: Option<u64>)
        ensures
            self.entries().len() == 0 ==> r is None,
            self.entries().len() > 0 ==> r == Some(
                self.entries()[earliest_index(self.entries())].due,
            ),
            r matches Some(d) ==> forall|j: int|
                0 <= j < self.entries().len() ==> d <= #[trigger] self.entries()[j].due,
    {
        if self.entries.len() == 0 {
            None
        } else {
            let k = self.earliest();
            proof {
                lemma_earliest_is_first_minimum(self.entries());
            }
            Some(self.entries[k].due)
        }
    }

    /// Takes out the earliest entry if it is due at `now`. Nothing is taken
    /// while no entry is due.
    pub fn pop_expired(&mut self, now: u64) -> (r: Option<Task>)
        ensures
            !any_due(old(self).entries(), now) ==> r is None && final(self).entries() == old(
                self,
            ).entries(),
            any_due(old(self).entries(), now) ==> {
                let k = earliest_index(old(self).entries());
                &&& r == Some(old(self).entries()[k].task)
                &&& final(self).entries() == old(self).entries().remove(k)
            },
    {
        if self.entries.len() == 0 {
            return None;
        }
        let k = self.earliest();
        proof {
            lemma_earliest_is_first_minimum(self.entries());
        }
        if self.entries[k].due <= now {
            let e = self.entries.remove(k);
            Some(e.task)
        } else {
            proof {
                let s = self.entries();
                assert forall|j: int| 0 <= j < s.len() implies #[trigger] s[j].due > now by {}
            }
            None
        }
    }

    /// Applies a worker's report to its task: a completed task is done; a
    /// retryable failure goes back to the delay structure, due after the
    /// backoff of its new retry count, while its policy allows one more
    /// retry, and fails for good once it does not; a fatal failure fails for
    /// good. A report that does not fit the task's status is refused and the
    /// task handed back unchanged.
    pub fn handle_execution_event(&mut self, event: ExecutionEvent, now: u64) -> (r:
        EventOutcome)
        ensures
            event_handled(old(self).entries(), final(self).entries(), event, now, r),
    {
        match event {
            ExecutionEvent::Completed(mut task) => {
                match task.complete() {
                    Ok(()) => EventOutcome::Completed(task),
                    Err(e) => EventOutcome::Rejected(task, e),
                }
            },
            ExecutionEvent::RetryableFailure(mut task, error) => {
                match task.mark_retryable_failure(error) {
                    Ok(()) => {
                        let delay = compute_backoff(task.attempts, &task.retry_policy.strategy);
                        let due = self.schedule(task, now, delay);
                        proof {
                            assert(self.entries().drop_last() =~= old(self).entries());
                        }
                        EventOutcome::RetryScheduled { due }
                    },
                    Err(TaskTransitionError::RetryLimitExceeded) => {
                        match task.mark_permanent_failure(RETRY_LIMIT_MESSAGE.to_owned()) {
                            Ok(()) => EventOutcome::FailedPermanent(task),
                            Err(e) => EventOutcome::Rejected(task, e),
                        }
                    },
                    Err(e) => EventOutcome::Rejected(task, e),
                }
            },
            ExecutionEvent::FatalFailure(mut task, error) => match task.mark_permanent_failure(
                error,
            ) {
                Ok(()) => EventOutcome::FailedPermanent(task),
                Err(e) => EventOutcome::Rejected(task, e),
            },
        }
    }

    /// Handles one command: a schedule command puts the task in the delay
    /// structure, an execution result is handled as
    /// [`Scheduler::handle_execution_event`] says, and shutdown empties the
    /// delay structure and hands back the abandoned tasks, earliest entry first
    /// in the order they went in.
    pub fn handle_command(&mut self, cmd: SchedulerCommand, now: u64) -> (r: CommandOutcome)
        ensures
            match cmd {
                SchedulerCommand::Schedule { task, delay } => {
                    &&& r == CommandOutcome::Scheduled { due: due_at(now, delay) }
                    &&& final(self).entries() == old(self).entries().push(
                        Scheduled { due: due_at(now, delay), task },
                    )
                },
                SchedulerCommand::ExecutionResult(event) => r matches CommandOutcome::Event(o)
                    && event_handled(old(self).entries(), final(self).entries(), event, now, o),
                SchedulerCommand::Shutdown => {
                    &&& final(self).entries().len() == 0
                    &&& r matches CommandOutcome::Stopped(v) && v@ == old(self).entries().map_values(
                        |e: Scheduled| e.task,
                    )
                },
            },
    {
        match cmd {
            SchedulerCommand::Schedule { task, delay } => {
                let due = self.schedule(task, now, delay);
                CommandOutcome::Scheduled { due }
            },
            SchedulerCommand::ExecutionResult(event) => CommandOutcome::Event(
                self.handle_execution_event(event, now),
            ),
            SchedulerCommand::Shutdown => CommandOutcome::Stopped(self.abandon_all()),
        }
    }

    /// Empties the delay structure, handing back its tasks in the order they went in.
    fn abandon_all(&mut self) -> (r: Vec<Task>)
        ensures
            final(self).entries().len() == 0,
            r@ == old(self).entries().map_values(|e: Scheduled| e.task),
    {
        let mut out: Vec<Task> = Vec::new();
        let mut rest: Vec<Scheduled> = Vec::new();
        std::mem::swap(&mut rest, &mut self.entries);
        let ghost all = rest@;
        let n = rest.len();
        let mut i: usize = 0;
        while rest.len() > 0
            invariant
                self.entries@.len() == 0,
                all.len() == n,
                i <= n,
                rest@ == all.subrange(i as int, n as int),
                out@ == all.subrange(0, i as int).map_values(|e: Scheduled| e.task),
            decreases rest@.len(),
        {
            let e = rest.remove(0);
            proof {
                assert(e == all[i as int]);
                assert(all.subrange(0, i as int + 1).map_values(|e: Scheduled| e.task)
                    =~= all.subrange(0, i as int).map_values(|e: Scheduled| e.task).push(e.task));
                assert(rest@ =~= all.subrange(i as int + 1, n as int));
            }
            out.push(e.task);
            i = i + 1;
        }
        proof {
            assert(all.subrange(0, n as int) == all);
        }
        out
    }
}

/// A task scheduled at `t0` with delay `d` is never the one handed out before
/// `t0 + d`, whatever else waits; alone in the delay structure, it is handed
/// out at any instant from `t0 + d` on.
pub proof fn lemma_delay_respected(s: Seq<Scheduled>, task: Task, t0: u64, d: Delay, now: u64)
    ensures
        now < due_at(t0, d) ==> !(any_due(s.push(Scheduled { due: due_at(t0, d), task }), now)
            && earliest_index(s.push(Scheduled { due: due_at(t0, d), task })) == s.len()),
        s.len() == 0 && now >= due_at(t0, d) ==> any_due(
            s.push(Scheduled { due: due_at(t0, d), task }),
            now,
        ) && earliest_index(s.push(Scheduled { due: due_at(t0, d), task })) == 0,
        t0 + d.millis <= u64::MAX ==> due_at(t0, d) == t0 + d.millis,
{
    let s2 = s.push(Scheduled { due: due_at(t0, d), task });
    lemma_earliest_is_first_minimum(s2);
    if s.len() == 0 && now >= due_at(t0, d) {
        assert(s2[0].due <= now);
    }
}

/// A retryable failure of a task whose policy still allows a retry puts it
/// back in the delay structure as `Failed` with its count one higher, which
/// stays within the policy; once the retries are used up, the next retryable
/// failure never re-enters `Failed`: the task fails for good and nothing is
/// scheduled.
pub proof fn lemma_retry_then_fail_for_good(
    before: Seq<Scheduled>,
    after: Seq<Scheduled>,
    t: Task,
    error: String,
    now: u64,
    r: EventOutcome,
)
    requires
        t.retries_consistent(),
        in_table(t.status.kind_spec(), TransitionEvent::Fail),
        event_handled(before, after, ExecutionEvent::RetryableFailure(t, error), now, r),
    ensures
        t.attempts < t.retry_policy.max_retries ==> {
            &&& r is RetryScheduled
            &&& after.last().task.status matches TaskStatus::Failed { attempt, .. } && attempt
                == t.attempts + 1 && attempt <= t.retry_policy.max_retries
            &&& after.last().task.retries_consistent()
        },
        t.attempts >= t.retry_policy.max_retries ==> {
            &&& r matches EventOutcome::FailedPermanent(u) && u.status.kind_spec()
                == StatusKind::FailedPermanent
            &&& after == before
        },
{
}

} // verus!
