//! Tasks, retry policies and the task lifecycle state machine.
//!
//! Transitions (initial `Pending`, terminal `Completed` and `FailedPermanent`):
//!
//! | from     | event      | to              |
//! |----------|------------|-----------------|
//! | Pending  | assign     | Assigned        |
//! | Failed   | assign     | Assigned        |
//! | Assigned | start      | Running         |
//! | Running  | complete   | Completed       |
//! | Running  | fail       | Failed          |
//! | Failed   | fail       | Failed          |
//! | Running  | fail fatal | FailedPermanent |
//! | Failed   | fail fatal | FailedPermanent |
//!
//! A task that failed and waited out its backoff is delivered again while
//! still tagged `Failed`; the `Failed -> Assigned` edge lets it run once more.
//! How many retries a task may make is a separate guard, applied by
//! [`Task::mark_retryable_failure`] on top of the table.

use crate::ids::{JobId, TaskId};
use crate::time::Delay;
use std::time::SystemTime;
use vstd::prelude::*;
use vstd::string::StringExecFns;

verus! {

/// Execution outcome reported by workers.
#[derive(Debug)]
pub enum TaskResult {
    Success,
    RetryableFailure(String),
    FatalFailure(String),
}

/// How long a failed task waits before it is delivered again.
#[derive(Debug, Clone, Copy, PartialEq, Eq, Structural)]
pub enum BackoffStrategy {
    Fixed(Delay),
    Exponential { base: Delay, factor: u32, max_delay: Delay },
}

/// How many times a task may be retried, and how long it waits in between.
#[derive(Debug, Clone, Copy, PartialEq, Eq, Structural)]
pub struct RetryPolicy {
    pub max_retries: u32,
    pub strategy: BackoffStrategy,
}

/// Retries allowed when none are configured.
pub const DEFAULT_MAX_RETRIES: u32 = 3;

/// Fixed backoff, in milliseconds, when none is configured.
pub const DEFAULT_BACKOFF_MS: u64 = 1000;

pub open spec fn default_retry_policy() -> RetryPolicy {
    RetryPolicy {
        max_retries: DEFAULT_MAX_RETRIES,
        strategy: BackoffStrategy::Fixed(Delay { millis: DEFAULT_BACKOFF_MS }),
    }
}

impl RetryPolicy {
    /// A builder that starts from the default policy.
    pub fn builder() -> (r: RetryPolicyBuilder)
        ensures
            r.max_retries == default_retry_policy().max_retries,
            r.strategy == default_retry_policy().strategy,
    {
        RetryPolicyBuilder {
            max_retries: DEFAULT_MAX_RETRIES,
            strategy: BackoffStrategy::Fixed(Delay { millis: DEFAULT_BACKOFF_MS }),
        }
    }

    /// Whether a task that has failed `attempts` times may be retried once more.
    pub fn can_retry(&self, attempts: u32) -> (r: bool)
        ensures
            r == (attempts < self.max_retries),
    {
        attempts < self.max_retries
    }
}

/// Builder of a [`RetryPolicy`].
#[derive(Debug, Clone, Copy)]
pub struct RetryPolicyBuilder {
    pub max_retries: u32,
    pub strategy: BackoffStrategy,
}

impl RetryPolicyBuilder {
    pub fn max_retries(self, max_retries: u32) -> (r: Self)
        ensures
            r.max_retries == max_retries,
            r.strategy == self.strategy,
    {
        RetryPolicyBuilder { max_retries, strategy: self.strategy }
    }

    /// A fixed backoff of `millis` milliseconds.
    pub fn backoff_ms(self, millis: u64) -> (r: Self)
        ensures
            r.max_retries == self.max_retries,
            r.strategy == BackoffStrategy::Fixed(Delay { millis }),
    {
        RetryPolicyBuilder {
            max_retries: self.max_retries,
            strategy: BackoffStrategy::Fixed(Delay { millis }),
        }
    }

    pub fn strategy(self, strategy: BackoffStrategy) -> (r: Self)
        ensures
            r.max_retries == self.max_retries,
            r.strategy == strategy,
    {
        RetryPolicyBuilder { max_retries: self.max_retries, strategy }
    }

    pub fn build(self) -> (r: RetryPolicy)
        ensures
            r.max_retries == self.max_retries,
            r.strategy == self.strategy,
    {
        RetryPolicy { max_retries: self.max_retries, strategy: self.strategy }
    }
}

/// The variant of a [`TaskStatus`], without its data.
#[derive(Debug, Clone, Copy, PartialEq, Eq, Structural)]
pub enum StatusKind {
    Pending,
    Assigned,
    Running,
    Completed,
    Failed,
    FailedPermanent,
}

/// Task lifecycle states.
#[derive(Debug, Clone, PartialEq, Eq)]
pub enum TaskStatus {
    Pending,
    Assigned,
    Running,
    Completed,
    Failed { attempt: u32, error: String },
    FailedPermanent { error: String },
}

/// The events that move a task along its lifecycle.
#[derive(Debug, Clone, Copy, PartialEq, Eq, Structural)]
pub enum TransitionEvent {
    Assign,
    Start,
    Complete,
    Fail,
    FailFatal,
}

/// Why a transition was refused.
#[derive(Debug, Clone, Copy, PartialEq, Eq, Structural)]
pub enum TaskTransitionError {
    /// The pair (`from`, event leading to `to`) is not in the transition table.
    IllegalTransition { from: StatusKind, to: StatusKind },
    /// The task has used up the retries its policy allows.
    RetryLimitExceeded,
}

/// The transition table: whether `ev` may happen in a status of kind `from`.
pub open spec fn in_table(from: StatusKind, ev: TransitionEvent) -> bool {
    match (from, ev) {
        (StatusKind::Pending, TransitionEvent::Assign) => true,
        (StatusKind::Failed, TransitionEvent::Assign) => true,
        (StatusKind::Assigned, TransitionEvent::Start) => true,
        (StatusKind::Running, TransitionEvent::Complete) => true,
        (StatusKind::Running, TransitionEvent::Fail) => true,
        (StatusKind::Failed, TransitionEvent::Fail) => true,
        (StatusKind::Running, TransitionEvent::FailFatal) => true,
        (StatusKind::Failed, TransitionEvent::FailFatal) => true,
        _ => false,
    }
}

/// The kind of status that `ev` leads to.
pub open spec fn target(ev: TransitionEvent) -> StatusKind {
    match ev {
        TransitionEvent::Assign => StatusKind::Assigned,
        TransitionEvent::Start => StatusKind::Running,
        TransitionEvent::Complete => StatusKind::Completed,
        TransitionEvent::Fail => StatusKind::Failed,
        TransitionEvent::FailFatal => StatusKind::FailedPermanent,
    }
}

/// The structural transition: `next` where the table allows `ev` from `s`,
/// else the error naming the refused pair.
pub open spec fn structural(s: TaskStatus, ev: TransitionEvent, next: TaskStatus) -> Result<
    TaskStatus,
    TaskTransitionError,
> {
    if in_table(s.kind_spec(), ev) {
        Ok(next)
    } else {
        Err(TaskTransitionError::IllegalTransition { from: s.kind_spec(), to: target(ev) })
    }
}

/// The name of each kind of status.
pub open spec fn kind_name(k: StatusKind) -> Seq<char> {
    match k {
        StatusKind::Pending => "Pending"@,
        StatusKind::Assigned => "Assigned"@,
        StatusKind::Running => "Running"@,
        StatusKind::Completed => "Completed"@,
        StatusKind::Failed => "Failed"@,
        StatusKind::FailedPermanent => "FailedPermanent"@,
    }
}

/// The character of a decimal digit.
pub open spec fn digit_char(d: nat) -> char {
    if d == 0 {
        '0'
    } else if d == 1 {
        '1'
    } else if d == 2 {
        '2'
    } else if d == 3 {
        '3'
    } else if d == 4 {
        '4'
    } else if d == 5 {
        '5'
    } else if d == 6 {
        '6'
    } else if d == 7 {
        '7'
    } else if d == 8 {
        '8'
    } else {
        '9'
    }
}

/// `n` written in decimal, without leading zeros.
pub open spec fn decimal(n: nat) -> Seq<char>
    decreases n,
{
    if n < 10 {
        seq![digit_char(n)]
    } else {
        decimal(n / 10) + seq![digit_char(n % 10)]
    }
}

/// The text that describes a status: its name, with the retry count and the
/// error where it has them.
pub open spec fn status_text(s: TaskStatus) -> Seq<char> {
    match s {
        TaskStatus::Failed { attempt, error } => "Failed(attempts="@ + decimal(attempt as nat)
            + ", error="@ + error@ + ")"@,
        TaskStatus::FailedPermanent { error } => "FailedPermanent(error="@ + error@ + ")"@,
        _ => kind_name(s.kind_spec()),
    }
}

fn digit_str(d: u32) -> (r: &'static str)
    requires
        d < 10,
    ensures
        r@ == seq![digit_char(d as nat)],
{
    proof {
        reveal_strlit("0");
        reveal_strlit("1");
        reveal_strlit("2");
        reveal_strlit("3");
        reveal_strlit("4");
        reveal_strlit("5");
        reveal_strlit("6");
        reveal_strlit("7");
        reveal_strlit("8");
        reveal_strlit("9");
    }
    if d == 0 {
        "0"
    } else if d == 1 {
        "1"
    } else if d == 2 {
        "2"
    } else if d == 3 {
        "3"
    } else if d == 4 {
        "4"
    } else if d == 5 {
        "5"
    } else if d == 6 {
        "6"
    } else if d == 7 {
        "7"
    } else if d == 8 {
        "8"
    } else {
        "9"
    }
}

/// Appends `n` in decimal to `out`.
fn push_decimal(out: &mut String, n: u32)
    ensures
        final(out)@ == old(out)@ + decimal(n as nat),
    decreases n,
{
    if n >= 10 {
        push_decimal(out, n / 10);
    }
    out.append(digit_str(n % 10));
    proof {
        if n >= 10 {
            assert(old(out)@ + decimal(n as nat) =~= old(out)@ + decimal((n / 10) as nat) + seq![
                digit_char((n % 10) as nat),
            ]);
        } else {
            assert(old(out)@ + decimal(n as nat) =~= old(out)@ + seq![digit_char((n % 10) as nat)]);
        }
    }
}

impl TaskStatus {
    pub open spec fn kind_spec(self) -> StatusKind {
        match self {
            TaskStatus::Pending => StatusKind::Pending,
            TaskStatus::Assigned => StatusKind::Assigned,
            TaskStatus::Running => StatusKind::Running,
            TaskStatus::Completed => StatusKind::Completed,
            TaskStatus::Failed { .. } => StatusKind::Failed,
            TaskStatus::FailedPermanent { .. } => StatusKind::FailedPermanent,
        }
    }

    pub fn kind(&self) -> (r: StatusKind)
        ensures
            r == self.kind_spec(),
    {
        match self {
            TaskStatus::Pending => StatusKind::Pending,
            TaskStatus::Assigned => StatusKind::Assigned,
            TaskStatus::Running => StatusKind::Running,
            TaskStatus::Completed => StatusKind::Completed,
            TaskStatus::Failed { .. } => StatusKind::Failed,
            TaskStatus::FailedPermanent { .. } => StatusKind::FailedPermanent,
        }
    }

    pub open spec fn is_terminal_spec(self) -> bool {
        self.kind_spec() == StatusKind::Completed || self.kind_spec()
            == StatusKind::FailedPermanent
    }

    /// Whether no transition can leave this status.
    pub fn is_terminal(&self) -> (r: bool)
        ensures
            r == self.is_terminal_spec(),
    {
        match self {
            TaskStatus::Completed | TaskStatus::FailedPermanent { .. } => true,
            _ => false,
        }
    }

    /// The name of the status's variant.
    pub fn as_str(&self) -> (r: &'static str)
        ensures
            r@ == kind_name(self.kind_spec()),
    {
        match self {
            TaskStatus::Pending => "Pending",
            TaskStatus::Assigned => "Assigned",
            TaskStatus::Running => "Running",
            TaskStatus::Completed => "Completed",
            TaskStatus::Failed { .. } => "Failed",
            TaskStatus::FailedPermanent { .. } => "FailedPermanent",
        }
    }

    /// The status as text: `Failed(attempts=2, error=timeout)`,
    /// `FailedPermanent(error=timeout)`, or the bare name of any other status.
    pub fn describe(&self) -> (r: String)
        ensures
            r@ == status_text(*self),
    {
        match self {
            TaskStatus::Failed { attempt, error } => {
                let mut text = <String as StringExecFns>::from_str("Failed(attempts=");
                push_decimal(&mut text, *attempt);
                text.append(", error=");
                text.append(error.as_str());
                text.append(")");
                text
            },
            TaskStatus::FailedPermanent { error } => {
                let mut text = <String as StringExecFns>::from_str("FailedPermanent(error=");
                text.append(error.as_str());
                text.append(")");
                text
            },
            _ => <String as StringExecFns>::from_str(self.as_str()),
        }
    }

    fn illegal(&self, to: StatusKind) -> (r: TaskTransitionError)
        ensures
            r == (TaskTransitionError::IllegalTransition { from: self.kind_spec(), to }),
    {
        TaskTransitionError::IllegalTransition { from: self.kind(), to }
    }

    /// `Pending` or `Failed` to `Assigned`.
    pub fn mark_as_assigned(&self) -> (r: Result<TaskStatus, TaskTransitionError>)
        ensures
            r == structural(*self, TransitionEvent::Assign, TaskStatus::Assigned),
    {
        match self {
            TaskStatus::Pending | TaskStatus::Failed { .. } => Ok(TaskStatus::Assigned),
            _ => Err(self.illegal(StatusKind::Assigned)),
        }
    }

    /// `Assigned` to `Running`.
    pub fn mark_as_running(&self) -> (r: Result<TaskStatus, TaskTransitionError>)
        ensures
            r == structural(*self, TransitionEvent::Start, TaskStatus::Running),
    {
        match self {
            TaskStatus::Assigned => Ok(TaskStatus::Running),
            _ => Err(self.illegal(StatusKind::Running)),
        }
    }

    /// `Running` to `Completed`.
    pub fn mark_as_completed(&self) -> (r: Result<TaskStatus, TaskTransitionError>)
        ensures
            r == structural(*self, TransitionEvent::Complete, TaskStatus::Completed),
    {
        match self {
            TaskStatus::Running => Ok(TaskStatus::Completed),
            _ => Err(self.illegal(StatusKind::Completed)),
        }
    }

    /// `Running` or `Failed` to `Failed { attempt, error }`.
    pub fn mark_as_failed(&self, attempt: u32, error: String) -> (r: Result<
        TaskStatus,
        TaskTransitionError,
    >)
        ensures
            r == structural(*self, TransitionEvent::Fail, TaskStatus::Failed { attempt, error }),
    {
        match self {
            TaskStatus::Running | TaskStatus::Failed { .. } => Ok(
                TaskStatus::Failed { attempt, error },
            ),
            _ => Err(self.illegal(StatusKind::Failed)),
        }
    }

    /// `Running` or `Failed` to `FailedPermanent { error }`.
    pub fn mark_as_failed_permanent(&self, error: String) -> (r: Result<
        TaskStatus,
        TaskTransitionError,
    >)
        ensures
            r == structural(*self, TransitionEvent::FailFatal, TaskStatus::FailedPermanent { error }),
    {
        match self {
            TaskStatus::Running | TaskStatus::Failed { .. } => Ok(
                TaskStatus::FailedPermanent { error },
            ),
            _ => Err(self.illegal(StatusKind::FailedPermanent)),
        }
    }
}

/// A unit of work and where it stands in its lifecycle.
#[derive(Debug, Clone)]
pub struct Task {
    pub id: TaskId,
    pub job_id: JobId,
    pub payload: Vec<u8>,
    pub status: TaskStatus,
    /// Retryable failures so far.
    pub attempts: u32,
    pub retry_policy: RetryPolicy,
    pub created_at: SystemTime,
    pub updated_at: SystemTime,
}

/// Builder of a [`Task`]; every field left unset takes its default.
#[derive(Debug, Clone)]
pub struct TaskBuilder {
    pub id: Option<TaskId>,
    pub job_id: Option<JobId>,
    pub payload: Vec<u8>,
    pub status: Option<TaskStatus>,
    pub attempts: Option<u32>,
    pub retry_policy: Option<RetryPolicy>,
    pub created_at: Option<SystemTime>,
    pub updated_at: Option<SystemTime>,
}

impl Task {
    /// Everything but the status and the time of the last update: what no
    /// transition changes.
    pub open spec fn same_but_status(self, other: Task) -> bool {
        &&& self.same_identity(other)
        &&& self.attempts == other.attempts
    }

    /// Identity, payload, policy and creation time: what no failure changes.
    pub open spec fn same_identity(self, other: Task) -> bool {
        &&& self.id == other.id
        &&& self.job_id == other.job_id
        &&& self.payload@ == other.payload@
        &&& self.retry_policy == other.retry_policy
        &&& self.created_at == other.created_at
    }

    /// The retry count agrees with the status and stays within the policy.
    pub open spec fn retries_consistent(self) -> bool {
        &&& self.attempts <= self.retry_policy.max_retries
        &&& match self.status {
            TaskStatus::Failed { attempt, .. } => attempt == self.attempts,
            _ => true,
        }
    }

    /// A builder holding `payload` and nothing else.
    pub fn new(payload: Vec<u8>) -> (r: TaskBuilder)
        ensures
            r.payload@ == payload@,
            r.id is None,
            r.job_id is None,
            r.status is None,
            r.attempts is None,
            r.retry_policy is None,
            r.created_at is None,
            r.updated_at is None,
    {
        TaskBuilder {
            id: None,
            job_id: None,
            payload,
            status: None,
            attempts: None,
            retry_policy: None,
            created_at: None,
            updated_at: None,
        }
    }

    /// A builder holding `payload` and nothing else.
    pub fn builder(payload: Vec<u8>) -> (r: TaskBuilder)
        ensures
            r.payload@ == payload@,
            r.id is None,
            r.job_id is None,
            r.status is None,
            r.attempts is None,
            r.retry_policy is None,
            r.created_at is None,
            r.updated_at is None,
    {
        Task::new(payload)
    }

    /// Moves to `next` when it is `Ok`, refreshing `updated_at`; else changes nothing.
    fn apply(&mut self, next: Result<TaskStatus, TaskTransitionError>) -> (r: Result<
        (),
        TaskTransitionError,
    >)
        ensures
            match next {
                Ok(s) => r is Ok && final(self).status == s && final(self).same_but_status(
                    *old(self),
                ),
                Err(e) => r == Err::<(), TaskTransitionError>(e) && *final(self) == *old(self),
            },
    {
        match next {
            Ok(s) => {
                self.status = s;
                self.updated_at = SystemTime::now();
                Ok(())
            },
            Err(e) => Err(e),
        }
    }

    /// A worker claims the task.
    pub fn assign(&mut self) -> (r: Result<(), TaskTransitionError>)
        ensures
            match structural(old(self).status, TransitionEvent::Assign, TaskStatus::Assigned) {
                Ok(s) => r is Ok && final(self).status == s && final(self).same_but_status(
                    *old(self),
                ),
                Err(e) => r == Err::<(), TaskTransitionError>(e) && *final(self) == *old(self),
            },
    {
        let next = self.status.mark_as_assigned();
        self.apply(next)
    }

    /// A worker starts running the task.
    pub fn start(&mut self) -> (r: Result<(), TaskTransitionError>)
        ensures
            match structural(old(self).status, TransitionEvent::Start, TaskStatus::Running) {
                Ok(s) => r is Ok && final(self).status == s && final(self).same_but_status(
                    *old(self),
                ),
                Err(e) => r == Err::<(), TaskTransitionError>(e) && *final(self) == *old(self),
            },
    {
        let next = self.status.mark_as_running();
        self.apply(next)
    }

    /// The task ran to completion.
    pub fn complete(&mut self) -> (r: Result<(), TaskTransitionError>)
        ensures
            match structural(old(self).status, TransitionEvent::Complete, TaskStatus::Completed) {
                Ok(s) => r is Ok && final(self).status == s && final(self).same_but_status(
                    *old(self),
                ),
                Err(e) => r == Err::<(), TaskTransitionError>(e) && *final(self) == *old(self),
            },
    {
        let next = self.status.mark_as_completed();
        self.apply(next)
    }

    /// The task failed and may be retried: on success the retry count goes up
    /// by one and the status becomes `Failed` with that count. Refused, with
    /// nothing changed, where the table has no such edge or where the policy
    /// allows no further retry.
    pub fn mark_retryable_failure(&mut self, error: String) -> (r: Result<
        (),
        TaskTransitionError,
    >)
        ensures
            !in_table(old(self).status.kind_spec(), TransitionEvent::Fail) ==> r == Err::<
                (),
                TaskTransitionError,
            >(
                TaskTransitionError::IllegalTransition {
                    from: old(self).status.kind_spec(),
                    to: StatusKind::Failed,
                },
            ),
            in_table(old(self).status.kind_spec(), TransitionEvent::Fail) && old(self).attempts
                >= old(self).retry_policy.max_retries ==> r == Err::<(), TaskTransitionError>(
                TaskTransitionError::RetryLimitExceeded,
            ),
            r is Err ==> *final(self) == *old(self),
            r is Ok <==> in_table(old(self).status.kind_spec(), TransitionEvent::Fail) && old(
                self,
            ).attempts < old(self).retry_policy.max_retries,
            r is Ok ==> {
                &&& final(self).attempts == old(self).attempts + 1
                &&& final(self).status == (TaskStatus::Failed {
                    attempt: final(self).attempts,
                    error,
                })
                &&& final(self).same_identity(*old(self))
            },
    {
        match self.status {
            TaskStatus::Running | TaskStatus::Failed { .. } => {},
            _ => {
                return Err(self.status.illegal(StatusKind::Failed));
            },
        }
        if !self.retry_policy.can_retry(self.attempts) {
            return Err(TaskTransitionError::RetryLimitExceeded);
        }
        let attempt = self.attempts + 1;
        self.attempts = attempt;
        self.status = TaskStatus::Failed { attempt, error };
        self.updated_at = SystemTime::now();
        Ok(())
    }

    /// [`Task::mark_retryable_failure`] with an error message given as text.
    pub fn fail_retry(&mut self, error: &str) -> (r: Result<(), TaskTransitionError>)
        ensures
            r is Err ==> *final(self) == *old(self),
            r is Ok <==> in_table(old(self).status.kind_spec(), TransitionEvent::Fail) && old(
                self,
            ).attempts < old(self).retry_policy.max_retries,
            !in_table(old(self).status.kind_spec(), TransitionEvent::Fail) ==> r == Err::<
                (),
                TaskTransitionError,
            >(
                TaskTransitionError::IllegalTransition {
                    from: old(self).status.kind_spec(),
                    to: StatusKind::Failed,
                },
            ),
            in_table(old(self).status.kind_spec(), TransitionEvent::Fail) && old(self).attempts
                >= old(self).retry_policy.max_retries ==> r == Err::<(), TaskTransitionError>(
                TaskTransitionError::RetryLimitExceeded,
            ),
            r is Ok ==> {
                &&& final(self).attempts == old(self).attempts + 1
                &&& final(self).status matches TaskStatus::Failed { attempt, error: e }
                    && attempt == final(self).attempts && e@ == error@
                &&& final(self).same_identity(*old(self))
            },
    {
        self.mark_retryable_failure(error.to_owned())
    }

    /// The task failed for good.
    pub fn mark_permanent_failure(&mut self, error: String) -> (r: Result<
        (),
        TaskTransitionError,
    >)
        ensures
            match structural(
                old(self).status,
                TransitionEvent::FailFatal,
                TaskStatus::FailedPermanent { error },
            ) {
                Ok(s) => r is Ok && final(self).status == s && final(self).same_but_status(
                    *old(self),
                ),
                Err(e) => r == Err::<(), TaskTransitionError>(e) && *final(self) == *old(self),
            },
    {
        let next = self.status.mark_as_failed_permanent(error);
        self.apply(next)
    }
}

impl TaskBuilder {
    pub fn id(self, id: TaskId) -> (r: Self)
        ensures
            r == (TaskBuilder { id: Some(id), ..self }),
    {
        TaskBuilder { id: Some(id), ..self }
    }

    pub fn job_id(self, job_id: JobId) -> (r: Self)
        ensures
            r == (TaskBuilder { job_id: Some(job_id), ..self }),
    {
        TaskBuilder { job_id: Some(job_id), ..self }
    }

    pub fn status(self, status: TaskStatus) -> (r: Self)
        ensures
            r == (TaskBuilder { status: Some(status), ..self }),
    {
        TaskBuilder { status: Some(status), ..self }
    }

    pub fn attempts(self, attempts: u32) -> (r: Self)
        ensures
            r == (TaskBuilder { attempts: Some(attempts), ..self }),
    {
        TaskBuilder { attempts: Some(attempts), ..self }
    }

    pub fn retry_policy(self, retry_policy: RetryPolicy) -> (r: Self)
        ensures
            r == (TaskBuilder { retry_policy: Some(retry_policy), ..self }),
    {
        TaskBuilder { retry_policy: Some(retry_policy), ..self }
    }

    pub fn created_at(self, created_at: SystemTime) -> (r: Self)
        ensures
            r == (TaskBuilder { created_at: Some(created_at), ..self }),
    {
        TaskBuilder { created_at: Some(created_at), ..self }
    }

    pub fn updated_at(self, updated_at: SystemTime) -> (r: Self)
        ensures
            r == (TaskBuilder { updated_at: Some(updated_at), ..self }),
    {
        TaskBuilder { updated_at: Some(updated_at), ..self }
    }

    /// The task, with a fresh identifier for each one not given, status
    /// `Pending`, no failures so far, the default retry policy, and the
    /// current time, where none is given. `updated_at` defaults to `created_at`.
    pub fn build(self) -> (r: Task)
        ensures
            r.id == (match self.id {
                Some(i) => i,
                None => r.id,
            }),
            self.id is None ==> r.id.0@.len() == 36,
            r.job_id == (match self.job_id {
                Some(j) => j,
                None => r.job_id,
            }),
            self.job_id is None ==> r.job_id.0@.len() == 36,
            r.payload@ == self.payload@,
            r.status == (match self.status {
                Some(s) => s,
                None => TaskStatus::Pending,
            }),
            r.attempts == (match self.attempts {
                Some(a) => a,
                None => 0,
            }),
            r.retry_policy == (match self.retry_policy {
                Some(p) => p,
                None => default_retry_policy(),
            }),
            r.created_at == (match self.created_at {
                Some(c) => c,
                None => r.created_at,
            }),
            r.updated_at == (match self.updated_at {
                Some(u) => u,
                None => r.created_at,
            }),
    {
        let id = match self.id {
            Some(i) => i,
            None => TaskId::new(),
        };
        let job_id = match self.job_id {
            Some(j) => j,
            None => JobId::new(),
        };
        let status = match self.status {
            Some(s) => s,
            None => TaskStatus::Pending,
        };
        let attempts: u32 = match self.attempts {
            Some(a) => a,
            None => 0,
        };
        let retry_policy = match self.retry_policy {
            Some(p) => p,
            None => RetryPolicy::builder().build(),
        };
        let created_at = match self.created_at {
            Some(c) => c,
            None => SystemTime::now(),
        };
        let updated_at = match self.updated_at {
            Some(u) => u,
            None => created_at,
        };
        Task {
            id,
            job_id,
            payload: self.payload,
            status,
            attempts,
            retry_policy,
            created_at,
            updated_at,
        }
    }
}

/// Every (status, event) pair outside the transition table is refused with
/// `IllegalTransition` naming the pair, whatever status the event would lead to.
pub proof fn lemma_unlisted_pairs_are_illegal(s: TaskStatus, ev: TransitionEvent, next: TaskStatus)
    requires
        !in_table(s.kind_spec(), ev),
    ensures
        structural(s, ev, next) == Err::<TaskStatus, TaskTransitionError>(
            TaskTransitionError::IllegalTransition { from: s.kind_spec(), to: target(ev) },
        ),
{
}

/// Terminal statuses admit no event at all.
pub proof fn lemma_terminal_is_final(s: TaskStatus, ev: TransitionEvent)
    requires
        s.is_terminal_spec(),
    ensures
        !in_table(s.kind_spec(), ev),
{
}

/// A retryable failure that the policy admits keeps the retry count within
/// the policy: the new `Failed` status carries the count, one above the old
/// one and at most `max_retries`.
pub proof fn lemma_retry_count_within_policy(before: Task, after: Task, error: String)
    requires
        before.retries_consistent(),
        in_table(before.status.kind_spec(), TransitionEvent::Fail),
        before.attempts < before.retry_policy.max_retries,
        after.attempts == before.attempts + 1,
        after.status == (TaskStatus::Failed { attempt: after.attempts, error }),
        after.same_identity(before),
    ensures
        after.retries_consistent(),
        after.attempts <= after.retry_policy.max_retries,
{
}

} // verus!
