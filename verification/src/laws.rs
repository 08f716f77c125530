//! Properties of the registry and the keeper that hold across operations.
use vstd::prelude::*;
use crate::error::ContractError;
use crate::executor::{executable, info_of, retry_step, doubled, transient_error, AttemptView, RetryState, RetryStep,
    TaskInfo, INITIAL_RETRY_DELAY_MS};
use crate::text::contains_text;
use crate::host::{call_inflow_of, net_inflow_of, HostCallView};
use crate::model::{RegistryView, Step, task_wf, registry_wf, spec_initialize, spec_register_task,
    registered_task, spec_execute_task, execution_error, spec_pause_task, spec_resume_task,
    spec_deposit_funds, spec_withdraw_funds, spec_cancel_task, spec_get_task, with_active};
use crate::storage::TaskView;

verus! {

/// One state-changing request to the registry.
pub enum Operation {
    Initialize { admin: Seq<char> },
    Register {
        creator: Seq<char>,
        target_contract: Seq<char>,
        function: Seq<char>,
        args: Seq<Seq<u8>>,
        interval: u64,
        bounty_per_exec: i128,
        initial_funding: i128,
        token: Seq<char>,
    },
    Execute { keeper: Seq<char>, task_id: u64, now: u64 },
    Pause { task_id: u64 },
    Resume { task_id: u64 },
    Deposit { task_id: u64, amount: i128 },
    Withdraw { task_id: u64, amount: i128 },
    Cancel { task_id: u64 },
}

/// The effect of an operation on state `s`.
pub open spec fn apply(s: RegistryView, op: Operation) -> Result<Step, ContractError> {
    match op {
        Operation::Initialize { admin } => spec_initialize(s, admin),
        Operation::Register { creator, target_contract, function, args, interval, bounty_per_exec, initial_funding, token } =>
            spec_register_task(s, creator, target_contract, function, args, interval, bounty_per_exec, initial_funding, token),
        Operation::Execute { keeper, task_id, now } => spec_execute_task(s, keeper, task_id, now),
        Operation::Pause { task_id } => spec_pause_task(s, task_id),
        Operation::Resume { task_id } => spec_resume_task(s, task_id),
        Operation::Deposit { task_id, amount } => spec_deposit_funds(s, task_id, amount),
        Operation::Withdraw { task_id, amount } => spec_withdraw_funds(s, task_id, amount),
        Operation::Cancel { task_id } => spec_cancel_task(s, task_id),
    }
}

/// The task that an operation on state `s` concerns (for initialization, the
/// identifier the next registration would receive, which no task holds).
pub open spec fn subject(s: RegistryView, op: Operation) -> u64 {
    match op {
        Operation::Initialize { .. } => s.task_counter,
        Operation::Register { .. } => s.task_counter,
        Operation::Execute { task_id, .. } => task_id,
        Operation::Pause { task_id } => task_id,
        Operation::Resume { task_id } => task_id,
        Operation::Deposit { task_id, .. } => task_id,
        Operation::Withdraw { task_id, .. } => task_id,
        Operation::Cancel { task_id } => task_id,
    }
}

/// Funds of `token` held in custody for task `id`: its remaining funds if it
/// is registered and paid in `token`, otherwise none.
pub open spec fn custody(s: RegistryView, id: u64, token: Seq<char>) -> int {
    if s.tasks.contains_key(id) && s.tasks[id].token == token {
        s.tasks[id].remaining_funds as int
    } else {
        0
    }
}

/// The operation's arithmetic stays in range (where it would not, the operation traps).
pub open spec fn in_range(s: RegistryView, op: Operation) -> bool {
    match op {
        Operation::Register { .. } => s.task_counter < u64::MAX,
        Operation::Execute { task_id, now, .. } => s.tasks.contains_key(task_id)
            && execution_error(s.tasks[task_id], now) is None
            ==> s.tasks[task_id].execution_count < u64::MAX,
        Operation::Deposit { task_id, amount } => s.tasks.contains_key(task_id)
            ==> s.tasks[task_id].remaining_funds + amount <= i128::MAX,
        _ => true,
    }
}

/// The state after `op`: the operation's new state when it succeeds; when it
/// is refused, or traps on out-of-range arithmetic, the state is unchanged.
pub open spec fn next_state(s: RegistryView, op: Operation) -> RegistryView {
    if in_range(s, op) && apply(s, op) is Ok {
        apply(s, op)->Ok_0.state
    } else {
        s
    }
}

/// The state after a sequence of operations.
pub open spec fn run(s: RegistryView, ops: Seq<Operation>) -> RegistryView
    decreases ops.len(),
{
    if ops.len() == 0 {
        s
    } else {
        next_state(run(s, ops.drop_last()), ops.last())
    }
}

/// Requiring an authorization first moves no funds.
proof fn lemma_inflow_after_auth(address: Seq<char>, rest: Seq<HostCallView>, token: Seq<char>)
    ensures
        net_inflow_of(seq![HostCallView::RequireAuth { address }] + rest, token) == net_inflow_of(rest, token),
    decreases rest.len(),
{
    let all = seq![HostCallView::RequireAuth { address }] + rest;
    assert(net_inflow_of(Seq::<HostCallView>::empty(), token) == 0);
    if rest.len() == 0 {
        assert(all.drop_last() =~= Seq::<HostCallView>::empty());
        assert(all.last() == HostCallView::RequireAuth { address });
        assert(rest =~= Seq::<HostCallView>::empty());
    } else {
        assert(all.drop_last() =~= seq![HostCallView::RequireAuth { address }] + rest.drop_last());
        assert(all.last() == rest.last());
        lemma_inflow_after_auth(address, rest.drop_last(), token);
        assert(net_inflow_of(rest, token) == net_inflow_of(rest.drop_last(), token) + call_inflow_of(rest.last(), token));
    }
}

/// The inflow of at most two calls.
proof fn lemma_inflow_short(calls: Seq<HostCallView>, token: Seq<char>)
    requires
        calls.len() <= 2,
    ensures
        net_inflow_of(calls, token) == (if calls.len() == 0 {
            0
        } else if calls.len() == 1 {
            call_inflow_of(calls[0], token)
        } else {
            call_inflow_of(calls[0], token) + call_inflow_of(calls[1], token)
        }),
{
    let empty = Seq::<HostCallView>::empty();
    assert(net_inflow_of(empty, token) == 0);
    if calls.len() == 1 {
        assert(calls.drop_last() =~= empty);
    } else if calls.len() == 2 {
        let one = calls.drop_last();
        assert(one.drop_last() =~= empty);
        assert(net_inflow_of(one, token) == net_inflow_of(one.drop_last(), token) + call_inflow_of(one.last(), token));
        assert(one.last() == calls[0]);
    }
}

/// Every successful operation keeps the registry well formed: stored tasks
/// stay valid (interval and bounty within bounds, funds never
/// negative, executions within limit) and identifiers stay below the counter.
pub proof fn lemma_operations_keep_registry_wf(s: RegistryView, op: Operation)
    requires
        registry_wf(s),
        apply(s, op) is Ok,
        in_range(s, op),
    ensures
        registry_wf(apply(s, op)->Ok_0.state),
{
    let s2 = apply(s, op)->Ok_0.state;
    assert forall|id: u64| #[trigger] s2.tasks.contains_key(id) implies task_wf(s2.tasks[id]) && id < s2.task_counter by {
        if s.tasks.contains_key(id) {
            assert(task_wf(s.tasks[id]) && id < s.task_counter);
        }
    }
}

/// Registration never overwrites a task: the identifier it hands out is held by no task.
pub proof fn lemma_registration_ids_are_fresh(s: RegistryView, op: Operation)
    requires
        registry_wf(s),
        apply(s, op) is Ok,
        op is Register,
    ensures
        !s.tasks.contains_key(s.task_counter),
        apply(s, op)->Ok_0.state.tasks.contains_key(s.task_counter),
{
}

/// Custody follows the transfers, token by token: when an operation
/// succeeds, the net amount of each token that its host calls move into the
/// registry equals the change in the subject task's custody of that token,
/// and every other task is left as it was.
pub proof fn lemma_custody_follows_transfers(s: RegistryView, op: Operation, token: Seq<char>)
    requires
        registry_wf(s),
        apply(s, op) is Ok,
        in_range(s, op),
    ensures
        net_inflow_of(apply(s, op)->Ok_0.plan.calls, token)
            == custody(apply(s, op)->Ok_0.state, subject(s, op), token) - custody(s, subject(s, op), token),
        forall|id: u64| id != subject(s, op) ==> {
            &&& (#[trigger] apply(s, op)->Ok_0.state.tasks.contains_key(id) <==> s.tasks.contains_key(id))
            &&& s.tasks.contains_key(id) ==> apply(s, op)->Ok_0.state.tasks[id] == s.tasks[id]
        },
{
    let id = subject(s, op);
    if s.tasks.contains_key(id) {
        assert(task_wf(s.tasks[id]));
    }
    let plan = apply(s, op)->Ok_0.plan;
    match op {
        Operation::Initialize { admin } => {
            lemma_inflow_after_auth(admin, Seq::empty(), token);
            lemma_inflow_short(Seq::empty(), token);
            assert(plan.calls =~= seq![HostCallView::RequireAuth { address: admin }] + Seq::empty());
        },
        Operation::Register { creator, token: tk, initial_funding, .. } => {
            let rest = seq![HostCallView::CollectFunds { token: tk, from: creator, amount: initial_funding }];
            lemma_inflow_after_auth(creator, rest, token);
            lemma_inflow_short(rest, token);
        },
        Operation::Execute { keeper, now, .. } => {
            let t = s.tasks[id];
            assert(execution_error(t, now) is None);
            let rest = seq![
                HostCallView::InvokeTarget { contract: t.target_contract, function: t.function, args: t.args },
                HostCallView::PayOut { token: t.token, to: keeper, amount: t.bounty_per_exec },
            ];
            lemma_inflow_after_auth(keeper, rest, token);
            lemma_inflow_short(rest, token);
        },
        Operation::Pause { .. } | Operation::Resume { .. } => {
            lemma_inflow_after_auth(s.tasks[id].creator, Seq::empty(), token);
            lemma_inflow_short(Seq::empty(), token);
        },
        Operation::Deposit { amount, .. } => {
            let t = s.tasks[id];
            let rest = seq![HostCallView::CollectFunds { token: t.token, from: t.creator, amount }];
            lemma_inflow_after_auth(t.creator, rest, token);
            lemma_inflow_short(rest, token);
        },
        Operation::Withdraw { amount, .. } => {
            let t = s.tasks[id];
            let rest = seq![HostCallView::PayOut { token: t.token, to: t.creator, amount }];
            lemma_inflow_after_auth(t.creator, rest, token);
            lemma_inflow_short(rest, token);
        },
        Operation::Cancel { .. } => {
            let t = s.tasks[id];
            let rest = crate::model::refund_calls(t);
            lemma_inflow_after_auth(t.creator, rest, token);
            lemma_inflow_short(rest, token);
            assert(!apply(s, op)->Ok_0.state.tasks.contains_key(id));
        },
    }
}

/// Every operation that changes the registry is authorized first: its plan
/// begins by requiring the authorization of the administrator (initialize),
/// the creator (register, and pause, resume, deposit, withdraw and cancel of
/// the creator's task) or the keeper (execute). A refused authorization is
/// answered with `Unauthorized`.
pub proof fn lemma_operations_require_authorization(s: RegistryView, op: Operation)
    requires
        (apply(s, op) is Ok),
    ensures
        apply(s, op)->Ok_0.plan.calls.len() > 0,
        apply(s, op)->Ok_0.plan.calls[0] == (HostCallView::RequireAuth {
            address: match op {
                Operation::Initialize { admin } => admin,
                Operation::Register { creator, .. } => creator,
                Operation::Execute { keeper, .. } => keeper,
                _ => s.tasks[subject(s, op)].creator,
            },
        }),
        crate::host::call_failure(apply(s, op)->Ok_0.plan.calls[0]) == ContractError::Unauthorized,
{
}

/// A registry is initialized at most once: after a successful initialization,
/// every further one fails with `AlreadyInitialized`. Initialization keeps the
/// tasks and the counter.
pub proof fn lemma_initialize_once(s: RegistryView, first: Seq<char>, second: Seq<char>)
    requires
        (spec_initialize(s, first) is Ok),
    ensures
        spec_initialize(spec_initialize(s, first)->Ok_0.state, second) == Err::<Step, ContractError>(
            ContractError::AlreadyInitialized),
        spec_initialize(s, first)->Ok_0.state == (RegistryView { admin: Some(first), ..s }),
{
}

/// What registration writes, a query reads back: the new task under the
/// returned identifier, and every other identifier as before.
pub proof fn lemma_register_then_get(
    s: RegistryView,
    creator: Seq<char>,
    target_contract: Seq<char>,
    function: Seq<char>,
    args: Seq<Seq<u8>>,
    interval: u64,
    bounty_per_exec: i128,
    initial_funding: i128,
    token: Seq<char>,
)
    requires
        spec_register_task(s, creator, target_contract, function, args, interval, bounty_per_exec,
            initial_funding, token) is Ok,
    ensures
        ({
            let s2 = spec_register_task(s, creator, target_contract, function, args, interval,
                bounty_per_exec, initial_funding, token)->Ok_0.state;
            &&& spec_get_task(s2, s.task_counter) == Ok::<TaskView, ContractError>(
                registered_task(creator, target_contract, function, args, interval, bounty_per_exec,
                    initial_funding, token))
            &&& forall|id: u64| id != s.task_counter ==> #[trigger] spec_get_task(s2, id) == spec_get_task(s, id)
        }),
{
}

/// Task `id` was last executed no earlier than `since`, with interval `interval`,
/// and its identifier will never be handed out again.
pub open spec fn spaced_since(s: RegistryView, id: u64, since: int, interval: u64) -> bool {
    &&& registry_wf(s)
    &&& id < s.task_counter
    &&& s.tasks.contains_key(id) ==> s.tasks[id].last_executed_at >= since && s.tasks[id].interval == interval
}

/// One operation keeps the spacing of task `id`; when it executes task `id`,
/// it does so no earlier than `since + interval`.
proof fn lemma_step_keeps_spacing(s: RegistryView, op: Operation, id: u64, since: int, interval: u64)
    requires
        spaced_since(s, id, since, interval),
    ensures
        spaced_since(next_state(s, op), id, since, interval),
        op matches Operation::Execute { task_id, now, .. } ==> (task_id == id && in_range(s, op)
            && apply(s, op) is Ok ==> now >= since + interval),
{
    if in_range(s, op) && apply(s, op) is Ok {
        lemma_operations_keep_registry_wf(s, op);
        if s.tasks.contains_key(id) {
            assert(task_wf(s.tasks[id]));
        }
    }
}

/// Operations keep the spacing of task `id`.
proof fn lemma_run_keeps_spacing(s: RegistryView, ops: Seq<Operation>, id: u64, since: int, interval: u64)
    requires
        spaced_since(s, id, since, interval),
    ensures
        spaced_since(run(s, ops), id, since, interval),
    decreases ops.len(),
{
    if ops.len() > 0 {
        lemma_run_keeps_spacing(s, ops.drop_last(), id, since, interval);
        lemma_step_keeps_spacing(run(s, ops.drop_last()), ops.last(), id, since, interval);
    }
}

/// An executed task cannot run again before its interval has elapsed, whatever
/// happens in between: after an execution at `now`, and then any sequence of
/// operations (pauses, resumes, deposits, withdrawals, other tasks, refused
/// requests...), an execution at any `later < now + interval` is refused.
pub proof fn lemma_no_early_reexecution(
    s: RegistryView,
    keeper: Seq<char>,
    task_id: u64,
    now: u64,
    ops: Seq<Operation>,
    other_keeper: Seq<char>,
    later: u64,
)
    requires
        registry_wf(s),
        spec_execute_task(s, keeper, task_id, now) is Ok,
        later < now + s.tasks[task_id].interval,
    ensures
        spec_execute_task(run(spec_execute_task(s, keeper, task_id, now)->Ok_0.state, ops), other_keeper,
            task_id, later) is Err,
{
    let op = Operation::Execute { keeper, task_id, now };
    let interval = s.tasks[task_id].interval;
    let s1 = spec_execute_task(s, keeper, task_id, now)->Ok_0.state;
    assert(task_wf(s.tasks[task_id]) && task_id < s.task_counter);
    assert(s1.tasks[task_id].last_executed_at == now);
    assert(registry_wf(s1)) by {
        assert forall|id: u64| #[trigger] s1.tasks.contains_key(id) implies task_wf(s1.tasks[id]) && id < s1.task_counter by {
            assert(task_wf(s.tasks[id]) && id < s.task_counter);
        }
    }
    assert(spaced_since(s1, task_id, now as int, interval));
    lemma_run_keeps_spacing(s1, ops, task_id, now as int, interval);
    let s2 = run(s1, ops);
    if s2.tasks.contains_key(task_id) {
        assert(s2.tasks[task_id].last_executed_at + s2.tasks[task_id].interval > later);
    }
}

/// A task whose funds an execution uses up is paused, and further executions
/// are refused with `TaskInactive` until it is resumed.
pub proof fn lemma_exhausted_task_pauses(s: RegistryView, keeper: Seq<char>, task_id: u64, now: u64, later: u64)
    requires
        registry_wf(s),
        spec_execute_task(s, keeper, task_id, now) is Ok,
        spec_execute_task(s, keeper, task_id, now)->Ok_0.state.tasks[task_id].remaining_funds == 0,
    ensures
        !spec_execute_task(s, keeper, task_id, now)->Ok_0.state.tasks[task_id].is_active,
        spec_execute_task(spec_execute_task(s, keeper, task_id, now)->Ok_0.state, keeper, task_id, later)
            == Err::<Step, ContractError>(ContractError::TaskInactive),
{
    assert(task_wf(s.tasks[task_id]));
}

/// Pausing and then resuming a task leaves it active and otherwise unchanged;
/// a task that was active comes back exactly as it was.
pub proof fn lemma_pause_then_resume(s: RegistryView, task_id: u64)
    requires
        s.tasks.contains_key(task_id),
    ensures
        ({
            let s2 = spec_resume_task(spec_pause_task(s, task_id)->Ok_0.state, task_id)->Ok_0.state;
            &&& s2 == (RegistryView { tasks: s.tasks.insert(task_id, with_active(s.tasks[task_id], true)), ..s })
            &&& s.tasks[task_id].is_active ==> s2 == s
        }),
{
    let s2 = spec_resume_task(spec_pause_task(s, task_id)->Ok_0.state, task_id)->Ok_0.state;
    assert(s2.tasks =~= s.tasks.insert(task_id, with_active(s.tasks[task_id], true)));
    if s.tasks[task_id].is_active {
        assert(with_active(s.tasks[task_id], true) == s.tasks[task_id]);
        assert(s2.tasks =~= s.tasks);
    }
}

/// Depositing an amount and withdrawing it again restores the task's funds;
/// the withdrawal leaves the task paused.
pub proof fn lemma_deposit_then_withdraw(s: RegistryView, task_id: u64, amount: i128)
    requires
        registry_wf(s),
        spec_deposit_funds(s, task_id, amount) is Ok,
        s.tasks[task_id].remaining_funds + amount <= i128::MAX,
    ensures
        ({
            let s2 = spec_deposit_funds(s, task_id, amount)->Ok_0.state;
            let s3 = spec_withdraw_funds(s2, task_id, amount);
            &&& s3 is Ok
            &&& s3->Ok_0.state == (RegistryView {
                tasks: s.tasks.insert(task_id, with_active(s.tasks[task_id], false)),
                ..s
            })
        }),
{
    assert(task_wf(s.tasks[task_id]));
    let s3 = spec_withdraw_funds(spec_deposit_funds(s, task_id, amount)->Ok_0.state, task_id, amount);
    assert(s3->Ok_0.state.tasks =~= s.tasks.insert(task_id, with_active(s.tasks[task_id], false)));
}

/// Cancelling a task refunds everything it still holds, in its token, to its
/// creator, and the task can no longer be found.
pub proof fn lemma_cancel_refunds_everything(s: RegistryView, task_id: u64)
    requires
        registry_wf(s),
        s.tasks.contains_key(task_id),
    ensures
        net_inflow_of(spec_cancel_task(s, task_id)->Ok_0.plan.calls, s.tasks[task_id].token)
            == -s.tasks[task_id].remaining_funds,
        spec_get_task(spec_cancel_task(s, task_id)->Ok_0.state, task_id)
            == Err::<TaskView, ContractError>(ContractError::TaskNotFound),
{
    let t = s.tasks[task_id];
    assert(task_wf(t));
    lemma_custody_follows_transfers(s, Operation::Cancel { task_id }, t.token);
}

/// The keeper and the registry agree: a task the keeper deems ready is one
/// whose execution the registry accepts, and conversely.
pub proof fn lemma_keeper_agrees_with_registry(task_id: u64, t: TaskView, now: u64)
    ensures
        executable(info_of(task_id, t), now) <==> execution_error(t, now) is None,
{
}

/// The delay before the `k`-th retry: one second, doubled for each earlier retry.
pub open spec fn backoff_delay(k: nat) -> u64
    decreases k,
{
    if k == 0 { INITIAL_RETRY_DELAY_MS } else { doubled(backoff_delay((k - 1) as nat)) }
}

/// Retries back off exponentially and are bounded: a retry is scheduled only
/// when another attempt is allowed, it waits the current delay, and the next
/// attempt waits twice as long (saturating).
pub proof fn lemma_retry_backoff(s: RetryState, max_attempts: u32, outcome: AttemptView)
    requires
        s.attempt < max_attempts,
        s.delay_ms == backoff_delay(s.attempt as nat),
    ensures
        retry_step(s, max_attempts, outcome) matches RetryStep::RetryAfter { delay_ms, next } ==> {
            &&& delay_ms == backoff_delay(s.attempt as nat)
            &&& next.attempt == s.attempt + 1
            &&& next.attempt < max_attempts
            &&& next.delay_ms == backoff_delay(next.attempt as nat)
        },
        outcome is SubmitFailed || !(retry_step(s, max_attempts, outcome) is RetryAfter),
{
}

/// A due task is executed: when the task exists, is active, its interval has
/// elapsed (however long ago), it holds at least one bounty and it is under its
/// execution limit, the execution is accepted. The keeper authorizes, the target
/// is invoked with the stored call, the keeper is paid one bounty in the task's
/// token, and the task records the execution at `now`; nothing else changes.
pub proof fn lemma_due_execution_is_accepted(s: RegistryView, keeper: Seq<char>, task_id: u64, now: u64)
    requires
        registry_wf(s),
        s.tasks.contains_key(task_id),
        s.tasks[task_id].is_active,
        now >= s.tasks[task_id].last_executed_at + s.tasks[task_id].interval,
        s.tasks[task_id].remaining_funds >= s.tasks[task_id].bounty_per_exec,
        s.tasks[task_id].max_executions == 0 || s.tasks[task_id].execution_count < s.tasks[task_id].max_executions,
        s.tasks[task_id].execution_count < u64::MAX,
    ensures
        ({
            let t = s.tasks[task_id];
            let r = spec_execute_task(s, keeper, task_id, now);
            &&& r is Ok
            &&& r->Ok_0.state.admin == s.admin
            &&& r->Ok_0.state.task_counter == s.task_counter
            &&& r->Ok_0.state.tasks.dom() == s.tasks.dom()
            &&& forall|other: u64| other != task_id && #[trigger] s.tasks.contains_key(other)
                ==> r->Ok_0.state.tasks[other] == s.tasks[other]
            &&& r->Ok_0.state.tasks[task_id].last_executed_at == now
            &&& r->Ok_0.state.tasks[task_id].execution_count == t.execution_count + 1
            &&& r->Ok_0.state.tasks[task_id].remaining_funds == t.remaining_funds - t.bounty_per_exec
            &&& r->Ok_0.state.tasks[task_id].is_active == (t.remaining_funds != t.bounty_per_exec)
            &&& r->Ok_0.state.tasks[task_id].args == t.args
            &&& r->Ok_0.state.tasks[task_id].interval == t.interval
            &&& r->Ok_0.state.tasks[task_id].creator == t.creator
            &&& r->Ok_0.plan.calls == seq![
                HostCallView::RequireAuth { address: keeper },
                HostCallView::InvokeTarget { contract: t.target_contract, function: t.function, args: t.args },
                HostCallView::PayOut { token: t.token, to: keeper, amount: t.bounty_per_exec },
            ]
        }),
{
    let r = spec_execute_task(s, keeper, task_id, now);
    assert(task_wf(s.tasks[task_id]));
    assert(r->Ok_0.state.tasks.dom() =~= s.tasks.dom());
}

/// An execution is refused only for a reason the task gives: it does not
/// exist, is paused, its interval has not yet elapsed, it holds less than a
/// bounty, or it has reached its execution limit.
pub proof fn lemma_execution_refused_only_for_cause(s: RegistryView, keeper: Seq<char>, task_id: u64, now: u64)
    ensures
        spec_execute_task(s, keeper, task_id, now) is Err <==> {
            ||| !s.tasks.contains_key(task_id)
            ||| !s.tasks[task_id].is_active
            ||| now < s.tasks[task_id].last_executed_at + s.tasks[task_id].interval
            ||| s.tasks[task_id].remaining_funds < s.tasks[task_id].bounty_per_exec
            ||| (s.tasks[task_id].max_executions != 0
                && s.tasks[task_id].execution_count >= s.tasks[task_id].max_executions)
        },
{
}

/// Acceptance does not expire: an execution accepted at `now` is accepted at
/// any later time, in the same registry.
pub proof fn lemma_execution_acceptance_is_monotone(
    s: RegistryView,
    keeper: Seq<char>,
    other_keeper: Seq<char>,
    task_id: u64,
    now: u64,
    later: u64,
)
    requires
        spec_execute_task(s, keeper, task_id, now) is Ok,
        now <= later,
    ensures
        spec_execute_task(s, other_keeper, task_id, later) is Ok,
{
    lemma_execution_refused_only_for_cause(s, keeper, task_id, now);
    lemma_execution_refused_only_for_cause(s, other_keeper, task_id, later);
}

/// The registry accepts exactly the executions the keeper deems ready.
pub proof fn lemma_registry_accepts_ready_tasks(s: RegistryView, keeper: Seq<char>, task_id: u64, now: u64)
    requires
        s.tasks.contains_key(task_id),
    ensures
        executable(info_of(task_id, s.tasks[task_id]), now) <==> spec_execute_task(s, keeper, task_id, now) is Ok,
{
    lemma_readiness(info_of(task_id, s.tasks[task_id]), now);
    lemma_execution_refused_only_for_cause(s, keeper, task_id, now);
}

/// The keeper deems a task ready exactly when it is active, its interval has
/// elapsed since the last execution (with no upper bound on how long ago), it
/// holds at least one bounty, and it is under its execution limit.
pub proof fn lemma_readiness(t: TaskInfo, now: u64)
    ensures
        executable(t, now) <==> {
            &&& t.is_active
            &&& t.last_executed_at + t.interval <= now
            &&& t.bounty_per_exec <= t.remaining_funds
            &&& (t.max_executions == 0 || t.execution_count < t.max_executions)
        },
{
}

/// Readiness does not expire: a task ready at `now` is ready at any later time.
pub proof fn lemma_readiness_is_monotone(t: TaskInfo, now: u64, later: u64)
    requires
        executable(t, now),
        now <= later,
    ensures
        executable(t, later),
{
    lemma_readiness(t, now);
    lemma_readiness(t, later);
}

/// Registration is refused exactly for an interval outside one minute to one
/// year, a bounty outside 1..=i128::MAX / 1_000_000, or funding below one
/// bounty, whatever the target, function, arguments and token. An accepted
/// registration stores the task as given under the next identifier, active,
/// never executed, unlimited, holding the initial funding, and collects that
/// funding from the creator after the creator authorizes.
pub proof fn lemma_registration_accepts_valid_parameters(
    s: RegistryView,
    creator: Seq<char>,
    target_contract: Seq<char>,
    function: Seq<char>,
    args: Seq<Seq<u8>>,
    interval: u64,
    bounty_per_exec: i128,
    initial_funding: i128,
    token: Seq<char>,
)
    ensures
        ({
            let r = spec_register_task(s, creator, target_contract, function, args, interval, bounty_per_exec,
                initial_funding, token);
            &&& r is Ok <==> {
                &&& 60 <= interval <= 31_536_000
                &&& 0 < bounty_per_exec <= i128::MAX / 1_000_000
                &&& bounty_per_exec <= initial_funding
            }
            &&& r is Ok ==> {
                &&& r->Ok_0.state.admin == s.admin
                &&& r->Ok_0.state.task_counter == s.task_counter + 1 || s.task_counter == u64::MAX
                &&& r->Ok_0.state.tasks == s.tasks.insert(s.task_counter, TaskView {
                    creator,
                    target_contract,
                    function,
                    args,
                    interval,
                    last_executed_at: 0,
                    bounty_per_exec,
                    remaining_funds: initial_funding,
                    token,
                    is_active: true,
                    max_executions: 0,
                    execution_count: 0,
                })
                &&& r->Ok_0.plan.calls == seq![
                    HostCallView::RequireAuth { address: creator },
                    HostCallView::CollectFunds { token, from: creator, amount: initial_funding },
                ]
            }
        }),
{
    assert(crate::model::MAX_BOUNTY == i128::MAX / 1_000_000);
}

/// A deposit of a positive amount into an existing task is accepted whether
/// the task is active or paused (including one paused because its funds ran
/// out): the creator authorizes, the amount is collected from the creator in
/// the task's token, and the task's funds grow by exactly that amount while
/// everything else, its active flag included, stays as it was.
pub proof fn lemma_deposit_accepted_for_any_task(s: RegistryView, task_id: u64, amount: i128)
    requires
        s.tasks.contains_key(task_id),
        amount > 0,
        s.tasks[task_id].remaining_funds + amount <= i128::MAX,
    ensures
        ({
            let t = s.tasks[task_id];
            let r = spec_deposit_funds(s, task_id, amount);
            &&& r is Ok
            &&& r->Ok_0.state.admin == s.admin
            &&& r->Ok_0.state.task_counter == s.task_counter
            &&& r->Ok_0.state.tasks == s.tasks.insert(task_id, TaskView {
                remaining_funds: (t.remaining_funds + amount) as i128,
                ..t
            })
            &&& r->Ok_0.state.tasks[task_id].is_active == t.is_active
            &&& r->Ok_0.plan.calls == seq![
                HostCallView::RequireAuth { address: t.creator },
                HostCallView::CollectFunds { token: t.token, from: t.creator, amount },
            ]
        }),
{
}

/// A submission error is transient exactly when its message mentions a
/// timeout, a connection problem, or the status code 503 or 502 anywhere.
pub proof fn lemma_transient_errors(message: Seq<char>)
    ensures
        transient_error(message) <==> {
            ||| contains_text(message, "timeout"@)
            ||| contains_text(message, "connection"@)
            ||| contains_text(message, "503"@)
            ||| contains_text(message, "502"@)
        },
{
}

/// A failed submission whose message mentions a timeout, a connection
/// problem, 503 or 502 is retried after the current delay, with the delay
/// doubled, as long as another attempt is allowed; once none is, it fails.
pub proof fn lemma_transient_failure_is_retried(s: RetryState, max_attempts: u32, message: Seq<char>)
    requires
        contains_text(message, "timeout"@) || contains_text(message, "connection"@)
            || contains_text(message, "503"@) || contains_text(message, "502"@),
    ensures
        s.attempt + 1 < max_attempts ==> retry_step(s, max_attempts, AttemptView::SubmitFailed { message })
            == (RetryStep::RetryAfter {
                delay_ms: s.delay_ms,
                next: RetryState { attempt: (s.attempt + 1) as u32, delay_ms: doubled(s.delay_ms) },
            }),
        s.attempt + 1 >= max_attempts ==> retry_step(s, max_attempts, AttemptView::SubmitFailed { message })
            == RetryStep::Failed,
{
    lemma_transient_errors(message);
}

} // verus!
