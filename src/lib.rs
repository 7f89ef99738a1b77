//! Task-scheduling core: the task lifecycle state machine, the backoff
//! calculator, the delay-aware scheduler and the bounded ready queue.

pub mod backoff;
pub mod ids;
pub mod queue;
pub mod scheduler;
pub mod task;
pub mod time;

pub use backoff::compute_backoff;
pub use ids::{JobId, TaskId};
pub use queue::{QueueError, ReadyQueue};
pub use scheduler::{
    CommandOutcome, EventOutcome, ExecutionEvent, Scheduled, Scheduler, SchedulerCommand,
};
pub use task::{
    BackoffStrategy, RetryPolicy, RetryPolicyBuilder, StatusKind, Task, TaskBuilder, TaskResult,
    TaskStatus, TaskTransitionError, TransitionEvent,
};
pub use time::Delay;
