//! The keeper registry: tasks, their funds and their execution schedule.
use vstd::prelude::*;
use std::collections::HashMap;
use crate::error::ContractError;
use crate::events::{Event, emit_task_registered, emit_task_executed, emit_task_paused,
    emit_task_resumed, emit_task_cancelled, emit_funds_withdrawn, emit_funds_deposited};
use crate::host::{HostCall, Plan, Refusal};
use crate::model::{
    execution_error, executed_task, registration_error, registry_wf, spec_cancel_task, spec_deposit_funds, spec_execute_task,
    spec_get_task, spec_initialize, spec_pause_task, spec_register_task, spec_resume_task, spec_withdraw_funds,
    task_authorizer, task_wf, tasks_map, with_active, with_funds, RegistryView, Step, MAX_BOUNTY, MAX_INTERVAL, MIN_INTERVAL,
};
use crate::storage::{TaskConfig, TaskView, copy_args};

verus! {

broadcast use vstd::std_specs::hash::group_hash_axioms;

/// The registry of automation tasks.
///
/// Each operation either fails, leaving the registry as it was, or succeeds
/// and returns the [`Plan`] of host calls and events that completes it. A plan
/// begins by requiring the caller's authorization. A refusal names the caller
/// who must authorize first when the check that failed comes after that
/// authorization: a registration's creator and an execution's keeper always,
/// a task's creator once the task is known to exist.
#[derive(Clone, Debug)]
pub struct AetherKeeper {
    admin: Option<String>,
    task_counter: u64,
    tasks: HashMap<u64, TaskConfig>,
}

impl View for AetherKeeper {
    type V = RegistryView;

    closed spec fn view(&self) -> RegistryView {
        RegistryView {
            admin: match self.admin {
                Some(a) => Some(a@),
                None => None,
            },
            task_counter: self.task_counter,
            tasks: self.tasks@.map_values(|t: TaskConfig| t@),
        }
    }
}

impl AetherKeeper {
    /// Whether the registry is well formed: every stored task is valid and
    /// every stored identifier is below the counter.
    pub open spec fn wf(&self) -> bool {
        registry_wf(self@)
    }

    /// An empty, uninitialized registry.
    pub fn new() -> (r: AetherKeeper)
        ensures
            r.wf(),
            r@ == (RegistryView { admin: None, task_counter: 0, tasks: Map::empty() }),
    {
        let r = AetherKeeper { admin: None, task_counter: 0, tasks: HashMap::new() };
        assert(r@.tasks =~= Map::<u64, TaskView>::empty());
        r
    }

    /// Initialize the registry with an administrator address.
    ///
    /// Fails with `AlreadyInitialized` if an administrator is already set;
    /// otherwise the administrator must authorize it. The task counter is
    /// kept, so identifiers handed out before initialization stay unique.
    pub fn initialize(&mut self, admin: String) -> (r: Result<Plan, Refusal>)
        requires
            old(self).wf(),
        ensures
            final(self).wf(),
            match r {
                Ok(plan) => spec_initialize(old(self)@, admin@)
                    == Ok::<Step, ContractError>(Step { state: final(self)@, plan: plan@ }),
                Err(e) => spec_initialize(old(self)@, admin@) == Err::<Step, ContractError>(e.error)
                    && e@.authorizer is None
                    && final(self)@ == old(self)@,
            },
    {
        if self.admin.is_some() {
            return Err(Refusal { error: ContractError::AlreadyInitialized, authorizer: None });
        }
        let mut calls: Vec<HostCall> = Vec::new();
        calls.push(HostCall::RequireAuth { address: admin.clone() });
        self.admin = Some(admin);
        let plan = Plan { calls, events: Vec::new() };
        proof {
            let spec_step = spec_initialize(old(self)@, self@.admin->Some_0);
            assert(plan@.calls =~= spec_step->Ok_0.plan.calls);
            assert(plan@.events =~= spec_step->Ok_0.plan.events);
        }
        Ok(plan)
    }

    /// Register a new task funded with `initial_funding` of `token`.
    ///
    /// Returns the task's identifier and the plan that collects its funding.
    pub fn register_task(
        &mut self,
        creator: String,
        target_contract: String,
        function: String,
        args: Vec<Vec<u8>>,
        interval: u64,
        bounty_per_exec: i128,
        initial_funding: i128,
        token: String,
    ) -> (r: Result<(u64, Plan), Refusal>)
        requires
            old(self).wf(),
            registration_error(interval, bounty_per_exec, initial_funding) is None
                ==> old(self)@.task_counter < u64::MAX,
        ensures
            final(self).wf(),
            match r {
                Ok((id, plan)) => id == old(self)@.task_counter
                    && spec_register_task(old(self)@, creator@, target_contract@, function@, args.deep_view(),
                        interval, bounty_per_exec, initial_funding, token@)
                        == Ok::<Step, ContractError>(Step { state: final(self)@, plan: plan@ }),
                Err(e) => spec_register_task(old(self)@, creator@, target_contract@, function@, args.deep_view(),
                        interval, bounty_per_exec, initial_funding, token@) == Err::<Step, ContractError>(e.error)
                    && e@.authorizer == Some(creator@)
                    && final(self)@ == old(self)@,
            },
    {
        if let Some(e) = check_registration(interval, bounty_per_exec, initial_funding) {
            return Err(Refusal { error: e, authorizer: Some(creator) });
        }
        let task_id = self.task_counter;
        let mut calls: Vec<HostCall> = Vec::new();
        calls.push(HostCall::RequireAuth { address: creator.clone() });
        calls.push(HostCall::CollectFunds {
            token: token.clone(),
            from: creator.clone(),
            amount: initial_funding,
        });
        let mut events: Vec<Event> = Vec::new();
        events.push(emit_task_registered(task_id, creator.clone(), bounty_per_exec));
        let config = TaskConfig {
            creator,
            target_contract,
            function,
            args,
            interval,
            last_executed_at: 0,
            bounty_per_exec,
            remaining_funds: initial_funding,
            token,
            is_active: true,
            max_executions: 0,
            execution_count: 0,
        };
        let ghost old_tasks = self@.tasks;
        self.tasks.insert(task_id, config);
        self.task_counter = task_id + 1;
        let plan = Plan { calls, events };
        proof {
            assert(self@.tasks =~= old_tasks.insert(task_id, config@));
            assert(plan@.calls =~= seq![crate::host::HostCallView::RequireAuth { address: creator@ }]
                + seq![crate::host::HostCallView::CollectFunds { token: token@, from: creator@, amount: initial_funding }]);
            assert(plan@.events =~= seq![crate::events::EventView::TaskRegistered {
                task_id, creator: creator@, bounty_per_exec }]);
        }
        Ok((task_id, plan))
    }

    /// Execute a task on behalf of `keeper` at ledger time `now`.
    ///
    /// The task must exist, be active, have waited out its interval since the
    /// last execution, hold at least one bounty, and be under its execution
    /// limit. The task's state is updated first; the plan then invokes the
    /// target contract and pays the keeper.
    pub fn execute_task(&mut self, keeper: String, task_id: u64, now: u64) -> (r: Result<Plan, Refusal>)
        requires
            old(self).wf(),
            old(self)@.tasks.contains_key(task_id) && execution_error(old(self)@.tasks[task_id], now) is None
                ==> old(self)@.tasks[task_id].execution_count < u64::MAX,
        ensures
            final(self).wf(),
            match r {
                Ok(plan) => spec_execute_task(old(self)@, keeper@, task_id, now)
                    == Ok::<Step, ContractError>(Step { state: final(self)@, plan: plan@ }),
                Err(e) => spec_execute_task(old(self)@, keeper@, task_id, now) == Err::<Step, ContractError>(e.error)
                    && e@.authorizer == Some(keeper@)
                    && final(self)@ == old(self)@,
            },
    {
        let t = match self.tasks.get(&task_id) {
            Some(t) => t,
            None => return Err(Refusal { error: ContractError::TaskNotFound, authorizer: Some(keeper) }),
        };
        proof {
            assert(self@.tasks.contains_key(task_id));
            assert(self@.tasks[task_id] == t@);
        }
        if !t.is_active {
            return Err(Refusal { error: ContractError::TaskInactive, authorizer: Some(keeper) });
        }
        if now < t.last_executed_at || now - t.last_executed_at < t.interval {
            return Err(Refusal { error: ContractError::IntervalNotMet, authorizer: Some(keeper) });
        }
        if t.remaining_funds < t.bounty_per_exec {
            return Err(Refusal { error: ContractError::InsufficientBountyFunds, authorizer: Some(keeper) });
        }
        if t.max_executions > 0 && t.execution_count >= t.max_executions {
            return Err(Refusal { error: ContractError::ExecutionLimitReached, authorizer: Some(keeper) });
        }
        let ghost before = t@;
        let mut updated = t.duplicate();
        updated.last_executed_at = now;
        updated.remaining_funds = t.remaining_funds - t.bounty_per_exec;
        updated.execution_count = t.execution_count + 1;
        let mut events: Vec<Event> = Vec::new();
        if updated.remaining_funds == 0 {
            updated.is_active = false;
            events.push(emit_task_paused(task_id, String::from_str("funds_depleted")));
        }
        let mut calls: Vec<HostCall> = Vec::new();
        calls.push(HostCall::RequireAuth { address: keeper.clone() });
        calls.push(HostCall::InvokeTarget {
            contract: t.target_contract.clone(),
            function: t.function.clone(),
            args: copy_args(&t.args),
        });
        calls.push(HostCall::PayOut { token: t.token.clone(), to: keeper.clone(), amount: t.bounty_per_exec });
        events.push(emit_task_executed(task_id, keeper, t.bounty_per_exec));
        let ghost old_tasks = self@.tasks;
        proof {
            assert(updated@ == executed_task(before, now));
        }
        self.tasks.insert(task_id, updated);
        let plan = Plan { calls, events };
        proof {
            assert(self@.tasks =~= old_tasks.insert(task_id, executed_task(before, now)));
            let spec_step = spec_execute_task(old(self)@, keeper@, task_id, now);
            assert(spec_step is Ok);
            assert(plan@.calls =~= spec_step->Ok_0.plan.calls);
            assert(plan@.events =~= spec_step->Ok_0.plan.events);
        }
        Ok(plan)
    }

    /// Pause a task.
    pub fn pause_task(&mut self, task_id: u64) -> (r: Result<Plan, Refusal>)
        requires
            old(self).wf(),
        ensures
            final(self).wf(),
            match r {
                Ok(plan) => spec_pause_task(old(self)@, task_id)
                    == Ok::<Step, ContractError>(Step { state: final(self)@, plan: plan@ }),
                Err(e) => spec_pause_task(old(self)@, task_id) == Err::<Step, ContractError>(e.error)
                    && e@.authorizer == task_authorizer(old(self)@, task_id)
                    && final(self)@ == old(self)@,
            },
    {
        self.set_active(task_id, false)
    }

    /// Resume a paused task.
    pub fn resume_task(&mut self, task_id: u64) -> (r: Result<Plan, Refusal>)
        requires
            old(self).wf(),
        ensures
            final(self).wf(),
            match r {
                Ok(plan) => spec_resume_task(old(self)@, task_id)
                    == Ok::<Step, ContractError>(Step { state: final(self)@, plan: plan@ }),
                Err(e) => spec_resume_task(old(self)@, task_id) == Err::<Step, ContractError>(e.error)
                    && e@.authorizer == task_authorizer(old(self)@, task_id)
                    && final(self)@ == old(self)@,
            },
    {
        self.set_active(task_id, true)
    }

    fn set_active(&mut self, task_id: u64, active: bool) -> (r: Result<Plan, Refusal>)
        requires
            old(self).wf(),
        ensures
            final(self).wf(),
            match r {
                Ok(plan) => (if active { spec_resume_task(old(self)@, task_id) } else { spec_pause_task(old(self)@, task_id) })
                    == Ok::<Step, ContractError>(Step { state: final(self)@, plan: plan@ }),
                Err(e) => (if active { spec_resume_task(old(self)@, task_id) } else { spec_pause_task(old(self)@, task_id) })
                    == Err::<Step, ContractError>(e.error) && e@.authorizer == task_authorizer(old(self)@, task_id)
                    && final(self)@ == old(self)@,
            },
    {
        let t = match self.tasks.get(&task_id) {
            Some(t) => t,
            None => return Err(Refusal { error: ContractError::TaskNotFound, authorizer: None }),
        };
        let ghost before = t@;
        proof {
            assert(self@.tasks[task_id] == before);
        }
        let mut updated = t.duplicate();
        updated.is_active = active;
        let mut events: Vec<Event> = Vec::new();
        if active {
            events.push(emit_task_resumed(task_id));
        } else {
            events.push(emit_task_paused(task_id, String::from_str("creator_paused")));
        }
        let mut calls: Vec<HostCall> = Vec::new();
        calls.push(HostCall::RequireAuth { address: t.creator.clone() });
        let ghost old_tasks = self@.tasks;
        self.tasks.insert(task_id, updated);
        let plan = Plan { calls, events };
        proof {
            assert(self@.tasks =~= old_tasks.insert(task_id, with_active(before, active)));
            let spec_step = if active { spec_resume_task(old(self)@, task_id) } else { spec_pause_task(old(self)@, task_id) };
            assert(plan@.calls =~= spec_step->Ok_0.plan.calls);
            assert(plan@.events =~= spec_step->Ok_0.plan.events);
        }
        Ok(plan)
    }

    /// Deposit `amount` more funds into a task.
    pub fn deposit_funds(&mut self, task_id: u64, amount: i128) -> (r: Result<Plan, Refusal>)
        requires
            old(self).wf(),
            old(self)@.tasks.contains_key(task_id) && amount > 0
                ==> old(self)@.tasks[task_id].remaining_funds + amount <= i128::MAX,
        ensures
            final(self).wf(),
            match r {
                Ok(plan) => spec_deposit_funds(old(self)@, task_id, amount)
                    == Ok::<Step, ContractError>(Step { state: final(self)@, plan: plan@ }),
                Err(e) => spec_deposit_funds(old(self)@, task_id, amount) == Err::<Step, ContractError>(e.error)
                    && e@.authorizer == task_authorizer(old(self)@, task_id)
                    && final(self)@ == old(self)@,
            },
    {
        let t = match self.tasks.get(&task_id) {
            Some(t) => t,
            None => return Err(Refusal { error: ContractError::TaskNotFound, authorizer: None }),
        };
        let ghost before = t@;
        proof {
            assert(self@.tasks[task_id] == before);
        }
        if amount <= 0 {
            return Err(Refusal { error: ContractError::InvalidBounty, authorizer: Some(t.creator.clone()) });
        }
        let mut calls: Vec<HostCall> = Vec::new();
        calls.push(HostCall::RequireAuth { address: t.creator.clone() });
        calls.push(HostCall::CollectFunds { token: t.token.clone(), from: t.creator.clone(), amount });
        let mut events: Vec<Event> = Vec::new();
        events.push(emit_funds_deposited(task_id, amount, t.creator.clone()));
        let mut updated = t.duplicate();
        updated.remaining_funds = t.remaining_funds + amount;
        let ghost old_tasks = self@.tasks;
        self.tasks.insert(task_id, updated);
        let plan = Plan { calls, events };
        proof {
            assert(self@.tasks =~= old_tasks.insert(task_id, with_funds(before, before.remaining_funds + amount)));
            let spec_step = spec_deposit_funds(old(self)@, task_id, amount);
            assert(plan@.calls =~= spec_step->Ok_0.plan.calls);
            assert(plan@.events =~= spec_step->Ok_0.plan.events);
        }
        Ok(plan)
    }

    /// Withdraw `amount` of a task's unused funds; the task is paused.
    pub fn withdraw_funds(&mut self, task_id: u64, amount: i128) -> (r: Result<Plan, Refusal>)
        requires
            old(self).wf(),
        ensures
            final(self).wf(),
            match r {
                Ok(plan) => spec_withdraw_funds(old(self)@, task_id, amount)
                    == Ok::<Step, ContractError>(Step { state: final(self)@, plan: plan@ }),
                Err(e) => spec_withdraw_funds(old(self)@, task_id, amount) == Err::<Step, ContractError>(e.error)
                    && e@.authorizer == task_authorizer(old(self)@, task_id)
                    && final(self)@ == old(self)@,
            },
    {
        let t = match self.tasks.get(&task_id) {
            Some(t) => t,
            None => return Err(Refusal { error: ContractError::TaskNotFound, authorizer: None }),
        };
        let ghost before = t@;
        proof {
            assert(self@.tasks[task_id] == before);
        }
        if amount <= 0 || amount > t.remaining_funds {
            return Err(Refusal { error: ContractError::InsufficientFunding, authorizer: Some(t.creator.clone()) });
        }
        let mut updated = t.duplicate();
        updated.is_active = false;
        updated.remaining_funds = t.remaining_funds - amount;
        let mut calls: Vec<HostCall> = Vec::new();
        calls.push(HostCall::RequireAuth { address: t.creator.clone() });
        calls.push(HostCall::PayOut { token: t.token.clone(), to: t.creator.clone(), amount });
        let mut events: Vec<Event> = Vec::new();
        events.push(emit_funds_withdrawn(task_id, amount, t.creator.clone()));
        let ghost old_tasks = self@.tasks;
        self.tasks.insert(task_id, updated);
        let plan = Plan { calls, events };
        proof {
            assert(self@.tasks =~= old_tasks.insert(task_id,
                with_active(with_funds(before, before.remaining_funds - amount), false)));
            let spec_step = spec_withdraw_funds(old(self)@, task_id, amount);
            assert(plan@.calls =~= spec_step->Ok_0.plan.calls);
            assert(plan@.events =~= spec_step->Ok_0.plan.events);
        }
        Ok(plan)
    }

    /// Cancel a task; whatever funds remain are returned to its creator.
    pub fn cancel_task(&mut self, task_id: u64) -> (r: Result<Plan, Refusal>)
        requires
            old(self).wf(),
        ensures
            final(self).wf(),
            match r {
                Ok(plan) => spec_cancel_task(old(self)@, task_id)
                    == Ok::<Step, ContractError>(Step { state: final(self)@, plan: plan@ }),
                Err(e) => spec_cancel_task(old(self)@, task_id) == Err::<Step, ContractError>(e.error)
                    && e@.authorizer == task_authorizer(old(self)@, task_id)
                    && final(self)@ == old(self)@,
            },
    {
        let t = match self.tasks.get(&task_id) {
            Some(t) => t,
            None => return Err(Refusal { error: ContractError::TaskNotFound, authorizer: None }),
        };
        let ghost before = t@;
        proof {
            assert(self@.tasks[task_id] == before);
        }
        let mut calls: Vec<HostCall> = Vec::new();
        calls.push(HostCall::RequireAuth { address: t.creator.clone() });
        if t.remaining_funds > 0 {
            calls.push(HostCall::PayOut { token: t.token.clone(), to: t.creator.clone(), amount: t.remaining_funds });
        }
        let mut events: Vec<Event> = Vec::new();
        events.push(emit_task_cancelled(task_id, String::from_str("creator_cancelled")));
        let ghost old_tasks = self@.tasks;
        self.tasks.remove(&task_id);
        let plan = Plan { calls, events };
        proof {
            assert(self@.tasks =~= old_tasks.remove(task_id));
            let spec_step = spec_cancel_task(old(self)@, task_id);
            assert(plan@.calls =~= spec_step->Ok_0.plan.calls);
            assert(plan@.events =~= spec_step->Ok_0.plan.events);
        }
        Ok(plan)
    }

    /// A registry rebuilt from stored parts: its administrator, its counter
    /// and (identifier, task) pairs, a later pair replacing an earlier one for
    /// the same identifier. Refused (`None`) if any task is not valid or has
    /// an identifier at or above the counter.
    pub fn from_parts(admin: Option<String>, task_counter: u64, tasks: &Vec<(u64, TaskConfig)>) -> (r: Option<AetherKeeper>)
        ensures
            match r {
                Some(k) => k.wf()
                    && (forall|i: int| 0 <= i < tasks.len() ==> task_wf(#[trigger] tasks[i].1@) && tasks[i].0 < task_counter)
                    && k@ == (RegistryView {
                        admin: match admin {
                            Some(a) => Some(a@),
                            None => None,
                        },
                        task_counter,
                        tasks: tasks_map(tasks@.map_values(|p: (u64, TaskConfig)| (p.0, p.1@))),
                    }),
                None => exists|i: int| 0 <= i < tasks.len() && (!task_wf(#[trigger] tasks[i].1@) || tasks[i].0 >= task_counter),
            },
    {
        let ghost pairs = tasks@.map_values(|p: (u64, TaskConfig)| (p.0, p.1@));
        let mut map: HashMap<u64, TaskConfig> = HashMap::new();
        let n = tasks.len();
        proof {
            assert(pairs.take(0) =~= Seq::<(u64, TaskView)>::empty());
            assert(map@.map_values(|t: TaskConfig| t@) =~= Map::<u64, TaskView>::empty());
        }
        for i in 0..n
            invariant
                n == tasks.len(),
                pairs == tasks@.map_values(|p: (u64, TaskConfig)| (p.0, p.1@)),
                map@.map_values(|t: TaskConfig| t@) == tasks_map(pairs.take(i as int)),
                forall|j: int| 0 <= j < i ==> task_wf(#[trigger] tasks[j].1@),
                forall|j: int| 0 <= j < i ==> (#[trigger] tasks[j]).0 < task_counter,
        {
            let id = tasks[i].0;
            let t = &tasks[i].1;
            let valid = id < task_counter && MIN_INTERVAL <= t.interval && t.interval <= MAX_INTERVAL && 0 < t.bounty_per_exec
                && t.bounty_per_exec <= MAX_BOUNTY && 0 <= t.remaining_funds
                && (t.max_executions == 0 || t.execution_count <= t.max_executions);
            if !valid {
                assert(!task_wf(tasks[i as int].1@) || tasks[i as int].0 >= task_counter);
                return None;
            }
            let ghost before = map@.map_values(|t: TaskConfig| t@);
            map.insert(id, t.duplicate());
            proof {
                assert(pairs.take(i + 1).drop_last() =~= pairs.take(i as int));
                assert(pairs.take(i + 1).last() == (id, t@));
                assert(map@.map_values(|t: TaskConfig| t@) =~= before.insert(id, t@));
            }
        }
        let k = AetherKeeper { admin, task_counter, tasks: map };
        proof {
            assert(pairs.take(n as int) =~= pairs);
            assert(k@.tasks == tasks_map(pairs));
            assert forall|id: u64| #[trigger] k@.tasks.contains_key(id) implies task_wf(k@.tasks[id]) && id < task_counter by {
                lemma_tasks_map_values(pairs, id);
            }
        }
        Some(k)
    }

    /// The administrator, if the registry is initialized.
    pub fn admin(&self) -> (a: Option<String>)
        ensures
            match a {
                Some(s) => self@.admin == Some(s@),
                None => self@.admin is None,
            },
    {
        match &self.admin {
            Some(a) => Some(a.clone()),
            None => None,
        }
    }

    /// The identifier the next registered task receives.
    pub fn task_counter(&self) -> (c: u64)
        ensures
            c == self@.task_counter,
    {
        self.task_counter
    }

    /// Query the configuration of a task.
    pub fn get_task(&self, task_id: u64) -> (r: Result<TaskConfig, ContractError>)
        ensures
            match r {
                Ok(t) => spec_get_task(self@, task_id) == Ok::<TaskView, ContractError>(t@),
                Err(e) => spec_get_task(self@, task_id) == Err::<TaskView, ContractError>(e),
            },
    {
        match self.tasks.get(&task_id) {
            Some(t) => Ok(t.duplicate()),
            None => Err(ContractError::TaskNotFound),
        }
    }
}

/// Why a registration with these parameters is refused, if it is: the
/// interval must lie in MIN_INTERVAL..=MAX_INTERVAL, the bounty in 1..=MAX_BOUNTY, and
/// the initial funding must cover at least one bounty.
pub fn check_registration(interval: u64, bounty_per_exec: i128, initial_funding: i128) -> (r: Option<ContractError>)
    ensures
        r == registration_error(interval, bounty_per_exec, initial_funding),
{
    assert(MAX_BOUNTY == i128::MAX / 1_000_000);
    if interval < MIN_INTERVAL {
        return Some(ContractError::InvalidInterval);
    }
    if interval > MAX_INTERVAL {
        return Some(ContractError::InvalidInterval);
    }
    if bounty_per_exec <= 0 || bounty_per_exec > i128::MAX / 1_000_000 {
        return Some(ContractError::InvalidBounty);
    }
    if initial_funding < bounty_per_exec {
        return Some(ContractError::InsufficientFunding);
    }
    None
}

/// Every task in `tasks_map(pairs)` is the task of some pair.
proof fn lemma_tasks_map_values(pairs: Seq<(u64, TaskView)>, id: u64)
    requires
        tasks_map(pairs).contains_key(id),
    ensures
        exists|j: int| 0 <= j < pairs.len() && #[trigger] pairs[j] == (id, tasks_map(pairs)[id]),
    decreases pairs.len(),
{
    if pairs.last().0 == id {
        assert(pairs[pairs.len() - 1] == (id, tasks_map(pairs)[id]));
    } else {
        lemma_tasks_map_values(pairs.drop_last(), id);
        let j = choose|j: int| 0 <= j < pairs.drop_last().len() && #[trigger] pairs.drop_last()[j] == (id, tasks_map(pairs.drop_last())[id]);
        assert(pairs[j] == pairs.drop_last()[j]);
    }
}

} // verus!
