//! The mathematical model of the registry: its state and the effect of each operation.
use vstd::prelude::*;
use crate::error::ContractError;
use crate::events::EventView;
use crate::host::{HostCallView, PlanView};
use crate::storage::TaskView;

verus! {

/// Smallest accepted interval between executions, in seconds (one minute).
pub const MIN_INTERVAL: u64 = 60;

/// Largest accepted interval between executions, in seconds (one year).
pub const MAX_INTERVAL: u64 = 31_536_000;

/// Largest accepted bounty per execution.
pub const MAX_BOUNTY: i128 = 170_141_183_460_469_231_731_687_303_715_884;

/// The state of the registry.
pub struct RegistryView {
    /// Administrator, once the registry is initialized.
    pub admin: Option<Seq<char>>,
    /// Identifier that the next registered task receives.
    pub task_counter: u64,
    /// Registered tasks by identifier.
    pub tasks: Map<u64, TaskView>,
}

/// The result of a successful operation: the new state and what it asks of the host.
pub struct Step {
    pub state: RegistryView,
    pub plan: PlanView,
}

/// A stored task is valid: its parameters passed registration and its funds are not negative.
pub open spec fn task_wf(t: TaskView) -> bool {
    &&& MIN_INTERVAL <= t.interval <= MAX_INTERVAL
    &&& 0 < t.bounty_per_exec <= MAX_BOUNTY
    &&& 0 <= t.remaining_funds
    &&& (t.max_executions == 0 || t.execution_count <= t.max_executions)
}

/// Every stored task is valid, and every stored identifier is below the
/// counter, so that the next registration receives an identifier no task holds.
pub open spec fn registry_wf(s: RegistryView) -> bool {
    forall|id: u64| #[trigger] s.tasks.contains_key(id) ==> task_wf(s.tasks[id]) && id < s.task_counter
}

/// Who must authorize a request about task `task_id` before it is examined
/// further: its creator, once the task is known to exist.
pub open spec fn task_authorizer(s: RegistryView, task_id: u64) -> Option<Seq<char>> {
    if s.tasks.contains_key(task_id) { Some(s.tasks[task_id].creator) } else { None }
}

/// A plan that first requires `address` to authorize the operation.
pub open spec fn authorized(address: Seq<char>, calls: Seq<HostCallView>, events: Seq<EventView>) -> PlanView {
    PlanView { calls: seq![HostCallView::RequireAuth { address }] + calls, events }
}

/// The tasks named by a list of (identifier, task) pairs; a later pair for
/// the same identifier replaces an earlier one.
pub open spec fn tasks_map(pairs: Seq<(u64, TaskView)>) -> Map<u64, TaskView>
    decreases pairs.len(),
{
    if pairs.len() == 0 {
        Map::empty()
    } else {
        tasks_map(pairs.drop_last()).insert(pairs.last().0, pairs.last().1)
    }
}

// ---------------------------------------------------------------- initialize

/// Initialization records the administrator, who must authorize it. The
/// task counter is kept, so identifiers handed out before stay unique.
pub open spec fn spec_initialize(s: RegistryView, admin: Seq<char>) -> Result<Step, ContractError> {
    if s.admin is Some {
        Err(ContractError::AlreadyInitialized)
    } else {
        Ok(Step {
            state: RegistryView { admin: Some(admin), ..s },
            plan: authorized(admin, Seq::empty(), Seq::empty()),
        })
    }
}

// ---------------------------------------------------------------- register

/// Why a registration is refused, in the order the checks are made.
pub open spec fn registration_error(interval: u64, bounty_per_exec: i128, initial_funding: i128) -> Option<ContractError> {
    if interval < MIN_INTERVAL || interval > MAX_INTERVAL {
        Some(ContractError::InvalidInterval)
    } else if bounty_per_exec <= 0 || bounty_per_exec > MAX_BOUNTY {
        Some(ContractError::InvalidBounty)
    } else if initial_funding < bounty_per_exec {
        Some(ContractError::InsufficientFunding)
    } else {
        None
    }
}

/// The task that a successful registration stores.
pub open spec fn registered_task(
    creator: Seq<char>,
    target_contract: Seq<char>,
    function: Seq<char>,
    args: Seq<Seq<u8>>,
    interval: u64,
    bounty_per_exec: i128,
    initial_funding: i128,
    token: Seq<char>,
) -> TaskView {
    TaskView {
        creator,
        target_contract,
        function,
        args,
        interval,
        last_executed_at: 0,
        bounty_per_exec,
        remaining_funds: initial_funding,
        token,
        is_active: true,
        max_executions: 0,
        execution_count: 0,
    }
}

pub open spec fn spec_register_task(
    s: RegistryView,
    creator: Seq<char>,
    target_contract: Seq<char>,
    function: Seq<char>,
    args: Seq<Seq<u8>>,
    interval: u64,
    bounty_per_exec: i128,
    initial_funding: i128,
    token: Seq<char>,
) -> Result<Step, ContractError> {
    match registration_error(interval, bounty_per_exec, initial_funding) {
        Some(e) => Err(e),
        None => {
            let id = s.task_counter;
            let t = registered_task(creator, target_contract, function, args, interval, bounty_per_exec, initial_funding, token);
            Ok(Step {
                state: RegistryView {
                    admin: s.admin,
                    task_counter: (id + 1) as u64,
                    tasks: s.tasks.insert(id, t),
                },
                plan: authorized(
                    creator,
                    seq![HostCallView::CollectFunds { token, from: creator, amount: initial_funding }],
                    seq![EventView::TaskRegistered { task_id: id, creator, bounty_per_exec }],
                ),
            })
        },
    }
}

// ---------------------------------------------------------------- execute

/// The execution window has not opened yet at `now`.
pub open spec fn too_early(t: TaskView, now: u64) -> bool {
    now < t.last_executed_at + t.interval
}

/// Why an execution of `t` at `now` is refused, in the order the checks are made.
pub open spec fn execution_error(t: TaskView, now: u64) -> Option<ContractError> {
    if !t.is_active {
        Some(ContractError::TaskInactive)
    } else if too_early(t, now) {
        Some(ContractError::IntervalNotMet)
    } else if t.remaining_funds < t.bounty_per_exec {
        Some(ContractError::InsufficientBountyFunds)
    } else if t.max_executions > 0 && t.execution_count >= t.max_executions {
        Some(ContractError::ExecutionLimitReached)
    } else {
        None
    }
}

/// The task after an execution at `now`: the bounty is deducted, the count
/// advances, and the task pauses itself once its funds are used up.
pub open spec fn executed_task(t: TaskView, now: u64) -> TaskView {
    let remaining = t.remaining_funds - t.bounty_per_exec;
    TaskView {
        last_executed_at: now,
        remaining_funds: remaining as i128,
        execution_count: (t.execution_count + 1) as u64,
        is_active: if remaining == 0 { false } else { t.is_active },
        ..t
    }
}

pub open spec fn spec_execute_task(s: RegistryView, keeper: Seq<char>, task_id: u64, now: u64) -> Result<Step, ContractError> {
    if !s.tasks.contains_key(task_id) {
        Err(ContractError::TaskNotFound)
    } else {
        let t = s.tasks[task_id];
        match execution_error(t, now) {
            Some(e) => Err(e),
            None => {
                let after = executed_task(t, now);
                let paused: Seq<EventView> = if after.remaining_funds == 0 {
                    seq![EventView::TaskPaused { task_id, reason: "funds_depleted"@ }]
                } else {
                    Seq::empty()
                };
                Ok(Step {
                    state: RegistryView { tasks: s.tasks.insert(task_id, after), ..s },
                    plan: authorized(
                        keeper,
                        seq![
                            HostCallView::InvokeTarget { contract: t.target_contract, function: t.function, args: t.args },
                            HostCallView::PayOut { token: t.token, to: keeper, amount: t.bounty_per_exec },
                        ],
                        paused.push(EventView::TaskExecuted { task_id, keeper, bounty_paid: t.bounty_per_exec }),
                    ),
                })
            },
        }
    }
}

// ---------------------------------------------------------------- pause / resume

pub open spec fn with_active(t: TaskView, active: bool) -> TaskView {
    TaskView { is_active: active, ..t }
}

pub open spec fn spec_pause_task(s: RegistryView, task_id: u64) -> Result<Step, ContractError> {
    if !s.tasks.contains_key(task_id) {
        Err(ContractError::TaskNotFound)
    } else {
        Ok(Step {
            state: RegistryView { tasks: s.tasks.insert(task_id, with_active(s.tasks[task_id], false)), ..s },
            plan: authorized(
                s.tasks[task_id].creator,
                Seq::empty(),
                seq![EventView::TaskPaused { task_id, reason: "creator_paused"@ }],
            ),
        })
    }
}

pub open spec fn spec_resume_task(s: RegistryView, task_id: u64) -> Result<Step, ContractError> {
    if !s.tasks.contains_key(task_id) {
        Err(ContractError::TaskNotFound)
    } else {
        Ok(Step {
            state: RegistryView { tasks: s.tasks.insert(task_id, with_active(s.tasks[task_id], true)), ..s },
            plan: authorized(s.tasks[task_id].creator, Seq::empty(), seq![EventView::TaskResumed { task_id }]),
        })
    }
}

// ---------------------------------------------------------------- deposit / withdraw

pub open spec fn with_funds(t: TaskView, funds: int) -> TaskView {
    TaskView { remaining_funds: funds as i128, ..t }
}

pub open spec fn spec_deposit_funds(s: RegistryView, task_id: u64, amount: i128) -> Result<Step, ContractError> {
    if !s.tasks.contains_key(task_id) {
        Err(ContractError::TaskNotFound)
    } else if amount <= 0 {
        Err(ContractError::InvalidBounty)
    } else {
        let t = s.tasks[task_id];
        Ok(Step {
            state: RegistryView {
                tasks: s.tasks.insert(task_id, with_funds(t, t.remaining_funds + amount)),
                ..s
            },
            plan: authorized(
                t.creator,
                seq![HostCallView::CollectFunds { token: t.token, from: t.creator, amount }],
                seq![EventView::FundsDeposited { task_id, amount, depositor: t.creator }],
            ),
        })
    }
}

pub open spec fn spec_withdraw_funds(s: RegistryView, task_id: u64, amount: i128) -> Result<Step, ContractError> {
    if !s.tasks.contains_key(task_id) {
        Err(ContractError::TaskNotFound)
    } else if amount <= 0 || amount > s.tasks[task_id].remaining_funds {
        Err(ContractError::InsufficientFunding)
    } else {
        let t = s.tasks[task_id];
        Ok(Step {
            state: RegistryView {
                tasks: s.tasks.insert(task_id, with_active(with_funds(t, t.remaining_funds - amount), false)),
                ..s
            },
            plan: authorized(
                t.creator,
                seq![HostCallView::PayOut { token: t.token, to: t.creator, amount }],
                seq![EventView::FundsWithdrawn { task_id, amount, recipient: t.creator }],
            ),
        })
    }
}

// ---------------------------------------------------------------- cancel

/// The refund a cancellation makes: whatever funds remain, if any.
pub open spec fn refund_calls(t: TaskView) -> Seq<HostCallView> {
    if t.remaining_funds > 0 {
        seq![HostCallView::PayOut { token: t.token, to: t.creator, amount: t.remaining_funds }]
    } else {
        Seq::empty()
    }
}

pub open spec fn spec_cancel_task(s: RegistryView, task_id: u64) -> Result<Step, ContractError> {
    if !s.tasks.contains_key(task_id) {
        Err(ContractError::TaskNotFound)
    } else {
        Ok(Step {
            state: RegistryView { tasks: s.tasks.remove(task_id), ..s },
            plan: authorized(
                s.tasks[task_id].creator,
                refund_calls(s.tasks[task_id]),
                seq![EventView::TaskCancelled { task_id, reason: "creator_cancelled"@ }],
            ),
        })
    }
}

// ---------------------------------------------------------------- query

pub open spec fn spec_get_task(s: RegistryView, task_id: u64) -> Result<TaskView, ContractError> {
    if s.tasks.contains_key(task_id) {
        Ok(s.tasks[task_id])
    } else {
        Err(ContractError::TaskNotFound)
    }
}

} // verus!
