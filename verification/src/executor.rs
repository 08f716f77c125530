//! The keeper's decisions: which tasks to execute, how many at once, and
//! when to retry a failed submission.
use vstd::prelude::*;
use crate::config::KeeperConfig;
use crate::storage::{TaskConfig, TaskView};
use crate::text::{contains, contains_text, same_text};

verus! {

/// What the keeper reads of a task to decide whether to execute it.
#[derive(Clone, Copy, Debug)]
pub struct TaskInfo {
    pub id: u64,
    pub is_active: bool,
    pub interval: u64,
    pub last_executed_at: u64,
    pub bounty_per_exec: i128,
    pub remaining_funds: i128,
    pub execution_count: u64,
    pub max_executions: u64,
}

/// The keeper's summary of task `id` with configuration `t`.
pub open spec fn info_of(id: u64, t: TaskView) -> TaskInfo {
    TaskInfo {
        id,
        is_active: t.is_active,
        interval: t.interval,
        last_executed_at: t.last_executed_at,
        bounty_per_exec: t.bounty_per_exec,
        remaining_funds: t.remaining_funds,
        execution_count: t.execution_count,
        max_executions: t.max_executions,
    }
}

/// A task is ready at `now`: active, its interval elapsed, a bounty's worth
/// of funds left, and under its execution limit.
pub open spec fn executable(t: TaskInfo, now: u64) -> bool {
    &&& t.is_active
    &&& now >= t.last_executed_at + t.interval
    &&& t.remaining_funds >= t.bounty_per_exec
    &&& (t.max_executions == 0 || t.execution_count < t.max_executions)
}

impl TaskInfo {
    /// The keeper's summary of task `id` with configuration `t`.
    pub fn from_task(id: u64, t: &TaskConfig) -> (r: TaskInfo)
        ensures
            r == info_of(id, t@),
    {
        TaskInfo {
            id,
            is_active: t.is_active,
            interval: t.interval,
            last_executed_at: t.last_executed_at,
            bounty_per_exec: t.bounty_per_exec,
            remaining_funds: t.remaining_funds,
            execution_count: t.execution_count,
            max_executions: t.max_executions,
        }
    }

    /// Whether the task is ready to execute at `now`.
    pub fn is_executable(&self, now: u64) -> (r: bool)
        ensures
            r == executable(*self, now),
    {
        self.is_active
            && now >= self.last_executed_at
            && now - self.last_executed_at >= self.interval
            && self.remaining_funds >= self.bounty_per_exec
            && (self.max_executions == 0 || self.execution_count < self.max_executions)
    }

    /// The status shown for the task.
    pub fn status_label(&self) -> (r: &'static str)
        ensures
            r@ == (if self.is_active { "active"@ } else { "paused"@ }),
    {
        if self.is_active {
            "active"
        } else {
            "paused"
        }
    }
}

/// The tasks of `tasks` that are ready at `now`, in their original order.
pub fn select_executable(tasks: &Vec<TaskInfo>, now: u64) -> (r: Vec<TaskInfo>)
    ensures
        r@ == tasks@.filter(|t: TaskInfo| executable(t, now)),
{
    let ghost pred = |t: TaskInfo| executable(t, now);
    let mut r: Vec<TaskInfo> = Vec::new();
    let n = tasks.len();
    for i in 0..n
        invariant
            n == tasks.len(),
            pred == (|t: TaskInfo| executable(t, now)),
            r@ == tasks@.take(i as int).filter(pred),
    {
        if tasks[i].is_executable(now) {
            r.push(tasks[i]);
        }
        proof {
            reveal_with_fuel(Seq::<_>::filter, 1);
            assert(tasks@.take(i + 1).drop_last() =~= tasks@.take(i as int));
            assert(tasks@.take(i + 1).last() == tasks@[i as int]);
            assert(r@ =~= tasks@.take(i + 1).filter(pred));
        }
    }
    assert(tasks@.take(n as int) =~= tasks@);
    r
}

/// Which tasks a listing shows.
#[derive(Clone, Copy, Debug, PartialEq, Eq, Structural)]
pub enum StatusFilter {
    /// No filter, or "all": every task.
    Any,
    /// Only active tasks.
    Active,
    /// Only paused tasks.
    Paused,
    /// A status that no task has.
    Unmatched,
}

/// Whether filter `f` shows task `t`.
pub open spec fn admits(f: StatusFilter, t: TaskInfo) -> bool {
    match f {
        StatusFilter::Any => true,
        StatusFilter::Active => t.is_active,
        StatusFilter::Paused => !t.is_active,
        StatusFilter::Unmatched => false,
    }
}

/// The filter that a requested status names.
pub open spec fn status_filter(status: Option<Seq<char>>) -> StatusFilter {
    match status {
        None => StatusFilter::Any,
        Some(s) => if s == "all"@ {
            StatusFilter::Any
        } else if s == "active"@ {
            StatusFilter::Active
        } else if s == "paused"@ {
            StatusFilter::Paused
        } else {
            StatusFilter::Unmatched
        },
    }
}

impl StatusFilter {
    /// The filter that a requested status names: none or "all" shows every
    /// task, "active" and "paused" show tasks in that state, anything else none.
    pub fn parse(status: Option<&str>) -> (f: StatusFilter)
        ensures
            f == status_filter(match status {
                Some(s) => Some(s@),
                None => None,
            }),
    {
        match status {
            None => StatusFilter::Any,
            Some(s) => {
                if same_text(s, "all") {
                    StatusFilter::Any
                } else if same_text(s, "active") {
                    StatusFilter::Active
                } else if same_text(s, "paused") {
                    StatusFilter::Paused
                } else {
                    StatusFilter::Unmatched
                }
            },
        }
    }

    /// Whether this filter shows `t`.
    pub fn admits(&self, t: &TaskInfo) -> (r: bool)
        ensures
            r == admits(*self, *t),
    {
        match self {
            StatusFilter::Any => true,
            StatusFilter::Active => t.is_active,
            StatusFilter::Paused => !t.is_active,
            StatusFilter::Unmatched => false,
        }
    }
}

/// The tasks of `tasks` that `filter` shows, in their original order.
pub fn filter_by_status(tasks: &Vec<TaskInfo>, filter: StatusFilter) -> (r: Vec<TaskInfo>)
    ensures
        r@ == tasks@.filter(|t: TaskInfo| admits(filter, t)),
{
    let ghost pred = |t: TaskInfo| admits(filter, t);
    let mut r: Vec<TaskInfo> = Vec::new();
    let n = tasks.len();
    for i in 0..n
        invariant
            n == tasks.len(),
            pred == (|t: TaskInfo| admits(filter, t)),
            r@ == tasks@.take(i as int).filter(pred),
    {
        if filter.admits(&tasks[i]) {
            r.push(tasks[i]);
        }
        proof {
            reveal_with_fuel(Seq::<_>::filter, 1);
            assert(tasks@.take(i + 1).drop_last() =~= tasks@.take(i as int));
            assert(tasks@.take(i + 1).last() == tasks@[i as int]);
            assert(r@ =~= tasks@.take(i + 1).filter(pred));
        }
    }
    assert(tasks@.take(n as int) =~= tasks@);
    r
}

/// The first task of `tasks` with identifier `task_id`, if any.
pub fn find_task(tasks: &Vec<TaskInfo>, task_id: u64) -> (r: Option<TaskInfo>)
    ensures
        match r {
            Some(t) => exists|i: int|
                0 <= i < tasks.len() && tasks[i] == t && t.id == task_id
                    && forall|j: int| 0 <= j < i ==> #[trigger] tasks[j].id != task_id,
            None => forall|i: int| 0 <= i < tasks.len() ==> #[trigger] tasks[i].id != task_id,
        },
{
    let n = tasks.len();
    for i in 0..n
        invariant
            n == tasks.len(),
            forall|j: int| 0 <= j < i ==> #[trigger] tasks[j].id != task_id,
    {
        if tasks[i].id == task_id {
            return Some(tasks[i]);
        }
    }
    None
}

/// Why a configuration cannot run a keeper.
#[derive(Clone, Copy, Debug, PartialEq, Eq, Structural)]
pub enum ExecutorError {
    MissingSecretKey,
    MissingRpcUrl,
    MissingContractId,
}

/// The first required setting that `c` leaves empty.
pub open spec fn config_error(c: KeeperConfig) -> Option<ExecutorError> {
    if c.secret_key@.len() == 0 {
        Some(ExecutorError::MissingSecretKey)
    } else if c.rpc_url@.len() == 0 {
        Some(ExecutorError::MissingRpcUrl)
    } else if c.contract_id@.len() == 0 {
        Some(ExecutorError::MissingContractId)
    } else {
        None
    }
}

impl ExecutorError {
    /// The message reported for this error.
    pub fn message(&self) -> (m: &'static str)
        ensures
            m@ == (match *self {
                ExecutorError::MissingSecretKey => "secret_key is required"@,
                ExecutorError::MissingRpcUrl => "rpc_url is required"@,
                ExecutorError::MissingContractId => "contract_id is required"@,
            }),
    {
        match self {
            ExecutorError::MissingSecretKey => "secret_key is required",
            ExecutorError::MissingRpcUrl => "rpc_url is required",
            ExecutorError::MissingContractId => "contract_id is required",
        }
    }
}

/// A keeper that polls for ready tasks and executes them.
#[derive(Clone, Debug)]
pub struct TaskExecutor {
    config: KeeperConfig,
}

impl TaskExecutor {
    /// The configuration this keeper runs with.
    pub closed spec fn spec_config(&self) -> KeeperConfig {
        self.config
    }

    /// A keeper for `config`, which must name a secret key, an RPC endpoint
    /// and a contract.
    pub fn new(config: &KeeperConfig) -> (r: Result<TaskExecutor, ExecutorError>)
        ensures
            match r {
                Ok(ex) => config_error(*config) is None && ex.spec_config() == *config,
                Err(e) => config_error(*config) == Some(e),
            },
    {
        if config.secret_key.as_str().is_empty() {
            return Err(ExecutorError::MissingSecretKey);
        }
        if config.rpc_url.as_str().is_empty() {
            return Err(ExecutorError::MissingRpcUrl);
        }
        if config.contract_id.as_str().is_empty() {
            return Err(ExecutorError::MissingContractId);
        }
        Ok(TaskExecutor { config: config.duplicate() })
    }

    /// The configuration this keeper runs with.
    pub fn config(&self) -> (c: &KeeperConfig)
        ensures
            *c == self.spec_config(),
    {
        &self.config
    }

    /// How many of `ready` tasks are executed per batch: the configured
    /// concurrency, but no more than there are tasks.
    pub fn batch_size(&self, ready: usize) -> (b: usize)
        ensures
            b == (if self.spec_config().max_concurrent_tasks < ready {
                self.spec_config().max_concurrent_tasks
            } else {
                ready
            }),
    {
        if self.config.max_concurrent_tasks < ready {
            self.config.max_concurrent_tasks
        } else {
            ready
        }
    }
}

// ---------------------------------------------------------------- retries

/// Delay before the first retry, in milliseconds.
pub const INITIAL_RETRY_DELAY_MS: u64 = 1000;

/// Where a sequence of submission attempts stands.
#[derive(Clone, Copy, Debug, PartialEq, Eq, Structural)]
pub struct RetryState {
    /// Attempts made so far.
    pub attempt: u32,
    /// Delay before the next retry, in milliseconds.
    pub delay_ms: u64,
}

/// What came of one submission attempt.
#[derive(Clone, Debug)]
pub enum AttemptOutcome {
    /// The transaction was submitted and confirmed.
    Confirmed,
    /// The transaction was submitted but not confirmed in time.
    ConfirmationTimedOut,
    /// The transaction was submitted but polling for it failed.
    ConfirmationFailed,
    /// Submission failed with `message`.
    SubmitFailed { message: String },
}

/// What to do after an attempt.
#[derive(Clone, Copy, Debug, PartialEq, Eq, Structural)]
pub enum RetryStep {
    /// The task was executed.
    Succeeded,
    /// Give up: the confirmation did not arrive in time.
    TimedOut,
    /// Give up: the attempt's error is final.
    Failed,
    /// Wait `delay_ms`, then attempt again from `next`.
    RetryAfter { delay_ms: u64, next: RetryState },
}

/// A submission error that a later attempt may not meet again.
pub open spec fn transient_error(message: Seq<char>) -> bool {
    ||| contains_text(message, "timeout"@)
    ||| contains_text(message, "connection"@)
    ||| contains_text(message, "503"@)
    ||| contains_text(message, "502"@)
}

/// Double a delay, saturating at the largest representable one.
pub open spec fn doubled(d: u64) -> u64 {
    if 2 * d > u64::MAX { u64::MAX } else { (2 * d) as u64 }
}

/// The outcome of an attempt as the retry policy sees it.
pub enum AttemptView {
    Confirmed,
    ConfirmationTimedOut,
    ConfirmationFailed,
    SubmitFailed { message: Seq<char> },
}

impl View for AttemptOutcome {
    type V = AttemptView;

    open spec fn view(&self) -> AttemptView {
        match self {
            AttemptOutcome::Confirmed => AttemptView::Confirmed,
            AttemptOutcome::ConfirmationTimedOut => AttemptView::ConfirmationTimedOut,
            AttemptOutcome::ConfirmationFailed => AttemptView::ConfirmationFailed,
            AttemptOutcome::SubmitFailed { message } => AttemptView::SubmitFailed { message: message@ },
        }
    }
}

/// The retry policy: a transient submission error is retried after the
/// current delay, with the delay doubled, as long as another attempt is left;
/// every other outcome ends the sequence.
pub open spec fn retry_step(s: RetryState, max_attempts: u32, outcome: AttemptView) -> RetryStep {
    match outcome {
        AttemptView::Confirmed => RetryStep::Succeeded,
        AttemptView::ConfirmationTimedOut => RetryStep::TimedOut,
        AttemptView::ConfirmationFailed => RetryStep::Failed,
        AttemptView::SubmitFailed { message } => if transient_error(message) && s.attempt + 1 < max_attempts {
            RetryStep::RetryAfter {
                delay_ms: s.delay_ms,
                next: RetryState { attempt: (s.attempt + 1) as u32, delay_ms: doubled(s.delay_ms) },
            }
        } else {
            RetryStep::Failed
        },
    }
}

/// Whether a submission error may go away on a later attempt.
pub fn is_transient_error(message: &str) -> (r: bool)
    ensures
        r == transient_error(message@),
{
    contains(message, "timeout") || contains(message, "connection") || contains(message, "503")
        || contains(message, "502")
}

impl RetryState {
    /// The state before the first attempt.
    pub fn initial() -> (s: RetryState)
        ensures
            s == (RetryState { attempt: 0, delay_ms: INITIAL_RETRY_DELAY_MS }),
    {
        RetryState { attempt: 0, delay_ms: INITIAL_RETRY_DELAY_MS }
    }

    /// Whether another attempt may be made under a limit of `max_attempts`.
    pub fn may_attempt(&self, max_attempts: u32) -> (r: bool)
        ensures
            r == (self.attempt < max_attempts),
    {
        self.attempt < max_attempts
    }

    /// What to do after an attempt ended with `outcome`.
    pub fn next_step(&self, max_attempts: u32, outcome: &AttemptOutcome) -> (r: RetryStep)
        requires
            self.attempt < max_attempts,
        ensures
            r == retry_step(*self, max_attempts, outcome@),
    {
        match outcome {
            AttemptOutcome::Confirmed => RetryStep::Succeeded,
            AttemptOutcome::ConfirmationTimedOut => RetryStep::TimedOut,
            AttemptOutcome::ConfirmationFailed => RetryStep::Failed,
            AttemptOutcome::SubmitFailed { message } => {
                if is_transient_error(message.as_str()) && self.attempt < max_attempts - 1 {
                    RetryStep::RetryAfter {
                        delay_ms: self.delay_ms,
                        next: RetryState {
                            attempt: self.attempt + 1,
                            delay_ms: if self.delay_ms > u64::MAX / 2 { u64::MAX } else { self.delay_ms * 2 },
                        },
                    }
                } else {
                    RetryStep::Failed
                }
            },
        }
    }
}

} // verus!
