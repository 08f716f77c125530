//! The records that the registry keeps, and the keys under which they are stored.
use vstd::prelude::*;

verus! {

/// Configuration and running state of one automated task.
///
/// Addresses (`creator`, `target_contract`, `token`) are held as their
/// account strings, the function name as text, and each argument of the
/// target call as its encoded bytes.
#[derive(Clone, Debug)]
pub struct TaskConfig {
    /// Address that created and funds the task
    pub creator: String,
    /// Target contract to invoke
    pub target_contract: String,
    /// Function name to call on the target contract
    pub function: String,
    /// Encoded arguments to pass to the function
    pub args: Vec<Vec<u8>>,
    /// Minimum seconds between executions
    pub interval: u64,
    /// Last execution timestamp
    pub last_executed_at: u64,
    /// Bounty paid to the keeper per execution (token units)
    pub bounty_per_exec: i128,
    /// Funds still available for bounty payments
    pub remaining_funds: i128,
    /// Token used for bounty payments
    pub token: String,
    /// Whether the task may be executed
    pub is_active: bool,
    /// Maximum number of executions (0 = unlimited)
    pub max_executions: u64,
    /// Number of executions so far
    pub execution_count: u64,
}

/// The mathematical value of a [`TaskConfig`].
pub struct TaskView {
    pub creator: Seq<char>,
    pub target_contract: Seq<char>,
    pub function: Seq<char>,
    pub args: Seq<Seq<u8>>,
    pub interval: u64,
    pub last_executed_at: u64,
    pub bounty_per_exec: i128,
    pub remaining_funds: i128,
    pub token: Seq<char>,
    pub is_active: bool,
    pub max_executions: u64,
    pub execution_count: u64,
}

impl View for TaskConfig {
    type V = TaskView;

    open spec fn view(&self) -> TaskView {
        TaskView {
            creator: self.creator@,
            target_contract: self.target_contract@,
            function: self.function@,
            args: self.args.deep_view(),
            interval: self.interval,
            last_executed_at: self.last_executed_at,
            bounty_per_exec: self.bounty_per_exec,
            remaining_funds: self.remaining_funds,
            token: self.token@,
            is_active: self.is_active,
            max_executions: self.max_executions,
            execution_count: self.execution_count,
        }
    }
}

/// A copy of a list of encoded arguments.
pub fn copy_args(args: &Vec<Vec<u8>>) -> (r: Vec<Vec<u8>>)
    ensures
        r.deep_view() == args.deep_view(),
{
    let mut r: Vec<Vec<u8>> = Vec::new();
    let n = args.len();
    for i in 0..n
        invariant
            n == args.len(),
            r.len() == i,
            forall|j: int| 0 <= j < i ==> #[trigger] r[j]@ == args[j]@,
    {
        let a: Vec<u8> = args[i].clone();
        assert(a@ =~= args[i as int]@);
        r.push(a);
    }
    assert(r.deep_view() =~= args.deep_view());
    r
}

impl TaskConfig {
    /// An independent copy of this configuration.
    pub fn duplicate(&self) -> (r: TaskConfig)
        ensures
            r@ == self@,
    {
        TaskConfig {
            creator: self.creator.clone(),
            target_contract: self.target_contract.clone(),
            function: self.function.clone(),
            args: copy_args(&self.args),
            interval: self.interval,
            last_executed_at: self.last_executed_at,
            bounty_per_exec: self.bounty_per_exec,
            remaining_funds: self.remaining_funds,
            token: self.token.clone(),
            is_active: self.is_active,
            max_executions: self.max_executions,
            execution_count: self.execution_count,
        }
    }
}

/// Where an entry lives in contract storage.
#[derive(Debug, Clone, Copy, PartialEq, Eq, Structural)]
pub enum StorageTier {
    /// Stored with the contract instance itself.
    Instance,
    /// Stored as a separate persistent ledger entry.
    Persistent,
}

/// Storage keys of the registry.
#[derive(Debug, Clone, Copy, PartialEq, Eq, Structural)]
pub enum DataKey {
    /// Admin address (singleton)
    Admin,
    /// Global task counter for generating unique IDs
    TaskCounter,
    /// Individual task configuration by ID
    Task(u64),
    /// Task execution history entry: (task_id, execution_index)
    TaskExecutionHistory(u64, u64),
}

impl DataKey {
    /// The storage tier a key belongs to: the singletons live with the
    /// instance, per-task entries are persistent.
    pub fn tier(&self) -> (t: StorageTier)
        ensures
            t == (match *self {
                DataKey::Admin | DataKey::TaskCounter => StorageTier::Instance,
                _ => StorageTier::Persistent,
            }),
    {
        match self {
            DataKey::Admin => StorageTier::Instance,
            DataKey::TaskCounter => StorageTier::Instance,
            DataKey::Task(_) => StorageTier::Persistent,
            DataKey::TaskExecutionHistory(_, _) => StorageTier::Persistent,
        }
    }
}

/// Task execution record for an audit trail.
#[derive(Clone, Debug)]
pub struct ExecutionRecord {
    pub task_id: u64,
    pub executor: String,
    pub executed_at: u64,
    pub bounty_paid: i128,
}

} // verus!
