use std::collections::{HashMap, HashSet};

use aether_keeper::error::ContractError;
use aether_keeper::events::{
    emit_execution_error, emit_funds_deposited, emit_funds_withdrawn, emit_task_cancelled, emit_task_executed,
    emit_task_paused, emit_task_registered, emit_task_resumed, Event,
};
use aether_keeper::storage::{DataKey, StorageTier};
use aether_keeper::host::{HostCall, Plan, Refusal};
use aether_keeper::registry::AetherKeeper;

const CONTRACT: &str = "CONTRACT";
const TOKEN: &str = "TOKEN";

/// A stand-in for the ledger: token balances, and whether target contracts succeed.
struct Ledger {
    balances: HashMap<String, i128>,
    authorized: HashSet<String>,
    invoke_ok: bool,
    published: Vec<Event>,
}

impl Ledger {
    fn new() -> Ledger {
        let mut balances = HashMap::new();
        balances.insert("creator".to_string(), 10000);
        let authorized = ["admin", "creator", "keeper"].iter().map(|a| a.to_string()).collect();
        Ledger { balances, authorized, invoke_ok: true, published: Vec::new() }
    }

    fn balance(&self, who: &str) -> i128 {
        *self.balances.get(who).unwrap_or(&0)
    }

    fn transfer(&mut self, from: &str, to: &str, amount: i128) -> bool {
        if self.balance(from) < amount {
            return false;
        }
        *self.balances.entry(from.to_string()).or_insert(0) -= amount;
        *self.balances.entry(to.to_string()).or_insert(0) += amount;
        true
    }

    /// Carry out a plan; on the first failing call, report its error.
    fn settle(&mut self, plan: Plan) -> Result<(), ContractError> {
        let saved = self.balances.clone();
        for call in &plan.calls {
            let ok = match call {
                HostCall::RequireAuth { address } => self.authorized.contains(address),
                HostCall::CollectFunds { from, amount, .. } => self.transfer(from, CONTRACT, *amount),
                HostCall::PayOut { to, amount, .. } => self.transfer(CONTRACT, to, *amount),
                HostCall::InvokeTarget { .. } => self.invoke_ok,
            };
            if !ok {
                self.balances = saved;
                return Err(call.failure_error());
            }
        }
        self.published.extend(plan.events);
        Ok(())
    }
}

/// Run one operation atomically: undone entirely if any host call fails.
fn run<T>(
    keeper: &mut AetherKeeper,
    ledger: &mut Ledger,
    op: impl FnOnce(&mut AetherKeeper) -> Result<(T, Plan), Refusal>,
) -> Result<T, ContractError> {
    let snapshot = keeper.clone();
    let (value, plan) = match op(keeper) {
        Ok(done) => done,
        Err(refusal) => {
            let before = Plan { calls: refusal.required_call().into_iter().collect(), events: Vec::new() };
            ledger.settle(before)?;
            return Err(refusal.error);
        }
    };
    match ledger.settle(plan) {
        Ok(()) => Ok(value),
        Err(e) => {
            *keeper = snapshot;
            Err(e)
        }
    }
}

fn register(keeper: &mut AetherKeeper, ledger: &mut Ledger, interval: u64, bounty: i128, funding: i128) -> Result<u64, ContractError> {
    run(keeper, ledger, |k| {
        k.register_task(
            "creator".to_string(),
            "target".to_string(),
            "ping".to_string(),
            Vec::new(),
            interval,
            bounty,
            funding,
            TOKEN.to_string(),
        )
    })
}

fn execute(keeper: &mut AetherKeeper, ledger: &mut Ledger, task_id: u64, now: u64) -> Result<(), ContractError> {
    run(keeper, ledger, |k| k.execute_task("keeper".to_string(), task_id, now).map(|p| ((), p)))
}

fn initialize(keeper: &mut AetherKeeper, ledger: &mut Ledger, admin: &str) -> Result<(), ContractError> {
    run(keeper, ledger, |k| k.initialize(admin.to_string()).map(|p| ((), p)))
}

fn setup() -> (AetherKeeper, Ledger) {
    let mut keeper = AetherKeeper::new();
    let mut ledger = Ledger::new();
    initialize(&mut keeper, &mut ledger, "admin").unwrap();
    (keeper, ledger)
}

#[test]
fn test_initialize() {
    let mut keeper = AetherKeeper::new();
    let mut ledger = Ledger::new();
    let result = initialize(&mut keeper, &mut ledger, "admin");
    assert!(result.is_ok());

    let result = initialize(&mut keeper, &mut ledger, "admin");
    assert_eq!(result, Err(ContractError::AlreadyInitialized));
}

#[test]
fn test_register_task() {
    let (mut keeper, mut ledger) = setup();
    let task_id = register(&mut keeper, &mut ledger, 60, 10, 100).unwrap();
    assert_eq!(task_id, 0);

    assert_eq!(ledger.balance("creator"), 9900);
    assert_eq!(ledger.balance(CONTRACT), 100);

    let task = keeper.get_task(task_id).unwrap();
    assert_eq!(task.creator, "creator");
    assert_eq!(task.bounty_per_exec, 10);
    assert_eq!(task.remaining_funds, 100);
    assert!(task.is_active);
    assert_eq!(task.execution_count, 0);
}

#[test]
fn test_register_task_insufficient_funding() {
    let (mut keeper, mut ledger) = setup();
    let result = register(&mut keeper, &mut ledger, 60, 10, 5);
    assert_eq!(result, Err(ContractError::InsufficientFunding));
}

#[test]
fn test_execute_task_success() {
    let (mut keeper, mut ledger) = setup();
    let task_id = register(&mut keeper, &mut ledger, 60, 10, 100).unwrap();

    let result = execute(&mut keeper, &mut ledger, task_id, 100);
    assert!(result.is_ok());

    assert_eq!(ledger.balance("keeper"), 10);
    assert_eq!(ledger.balance(CONTRACT), 90);

    let task = keeper.get_task(task_id).unwrap();
    assert_eq!(task.execution_count, 1);
    assert_eq!(task.remaining_funds, 90);
    assert_eq!(task.last_executed_at, 100);
}

#[test]
fn test_execute_task_interval_not_met() {
    let (mut keeper, mut ledger) = setup();
    let task_id = register(&mut keeper, &mut ledger, 60, 10, 100).unwrap();

    let result = execute(&mut keeper, &mut ledger, task_id, 0);
    assert_eq!(result, Err(ContractError::IntervalNotMet));
}

#[test]
fn test_pause_and_resume() {
    let (mut keeper, mut ledger) = setup();
    let task_id = register(&mut keeper, &mut ledger, 60, 10, 100).unwrap();

    let result = run(&mut keeper, &mut ledger, |k| k.pause_task(task_id).map(|p| ((), p)));
    assert!(result.is_ok());
    let task = keeper.get_task(task_id).unwrap();
    assert!(!task.is_active);

    let result = run(&mut keeper, &mut ledger, |k| k.resume_task(task_id).map(|p| ((), p)));
    assert!(result.is_ok());
    let task = keeper.get_task(task_id).unwrap();
    assert!(task.is_active);
}

#[test]
fn test_deposit_funds() {
    let (mut keeper, mut ledger) = setup();
    let task_id = register(&mut keeper, &mut ledger, 60, 10, 100).unwrap();

    let result = run(&mut keeper, &mut ledger, |k| k.deposit_funds(task_id, 50).map(|p| ((), p)));
    assert!(result.is_ok());

    let task = keeper.get_task(task_id).unwrap();
    assert_eq!(task.remaining_funds, 150);
    assert_eq!(ledger.balance(CONTRACT), 150);
}

#[test]
fn test_withdraw_funds() {
    let (mut keeper, mut ledger) = setup();
    let task_id = register(&mut keeper, &mut ledger, 60, 10, 100).unwrap();

    let result = run(&mut keeper, &mut ledger, |k| k.withdraw_funds(task_id, 30).map(|p| ((), p)));
    assert!(result.is_ok());

    let task = keeper.get_task(task_id).unwrap();
    assert_eq!(task.remaining_funds, 70);
    assert!(!task.is_active);
    assert_eq!(ledger.balance("creator"), 9930);
}

#[test]
fn test_cancel_task() {
    let (mut keeper, mut ledger) = setup();
    let task_id = register(&mut keeper, &mut ledger, 60, 10, 100).unwrap();

    let result = run(&mut keeper, &mut ledger, |k| k.cancel_task(task_id).map(|p| ((), p)));
    assert!(result.is_ok());

    assert_eq!(ledger.balance("creator"), 10000);
    assert_eq!(ledger.balance(CONTRACT), 0);

    let result = keeper.get_task(task_id);
    assert!(result.is_err());
}

// ------------------------------------------------------------------ further cases

#[test]
fn register_validates_interval_bounty_and_funding_in_order() {
    let mut keeper = AetherKeeper::new();
    let reg = |k: &mut AetherKeeper, interval: u64, bounty: i128, funding: i128| {
        k.register_task("c".to_string(), "t".to_string(), "f".to_string(), Vec::new(), interval, bounty, funding, "tok".to_string())
            .map(|(id, _)| id)
            .map_err(|r| r.error)
    };
    assert_eq!(reg(&mut keeper, 0, 0, 0), Err(ContractError::InvalidInterval));
    assert_eq!(reg(&mut keeper, 59, 10, 100), Err(ContractError::InvalidInterval));
    assert_eq!(reg(&mut keeper, 31_536_001, 10, 100), Err(ContractError::InvalidInterval));
    assert_eq!(reg(&mut keeper, 100_000_000, 10, 100), Err(ContractError::InvalidInterval));
    assert_eq!(reg(&mut keeper, 31_536_000, 0, 100), Err(ContractError::InvalidBounty));
    assert_eq!(reg(&mut keeper, 60, -5, 100), Err(ContractError::InvalidBounty));
    assert_eq!(reg(&mut keeper, 60, i128::MAX / 1_000_000 + 1, i128::MAX), Err(ContractError::InvalidBounty));
    assert_eq!(reg(&mut keeper, 60, i128::MAX / 1_000_000, i128::MAX), Ok(0));
    assert_eq!(reg(&mut keeper, 31_536_000, 10, 10), Ok(1));
    assert_eq!(reg(&mut keeper, 60, 10, 9), Err(ContractError::InsufficientFunding));
    assert_eq!(keeper.get_task(1).unwrap().interval, 31_536_000);
}

#[test]
fn register_plan_collects_funding_and_announces_task() {
    let mut keeper = AetherKeeper::new();
    let (id, plan) = keeper
        .register_task("creator".to_string(), "target".to_string(), "ping".to_string(), vec![vec![1, 2]], 60, 10, 100, TOKEN.to_string())
        .unwrap();
    assert_eq!(id, 0);
    assert_eq!(plan.calls.len(), 2);
    match &plan.calls[0] {
        HostCall::RequireAuth { address } => assert_eq!(address, "creator"),
        other => panic!("unexpected call {:?}", other),
    }
    match &plan.calls[1] {
        HostCall::CollectFunds { token, from, amount } => {
            assert_eq!(token, TOKEN);
            assert_eq!(from, "creator");
            assert_eq!(*amount, 100);
        }
        other => panic!("unexpected call {:?}", other),
    }
    assert_eq!(plan.events.len(), 1);
    assert_eq!(plan.events[0].topic(), "aether_task_registered");
    match &plan.events[0] {
        Event::TaskRegistered { task_id, creator, bounty_per_exec } => {
            assert_eq!(*task_id, 0);
            assert_eq!(creator, "creator");
            assert_eq!(*bounty_per_exec, 10);
        }
        other => panic!("unexpected event {:?}", other),
    }
    let task = keeper.get_task(0).unwrap();
    assert_eq!(task.args, vec![vec![1u8, 2]]);
    assert_eq!(task.target_contract, "target");
    assert_eq!(task.function, "ping");
    assert_eq!(task.interval, 60);
    assert_eq!(task.last_executed_at, 0);
    assert_eq!(task.max_executions, 0);
}

#[test]
fn execute_checks_in_order() {
    let (mut keeper, mut ledger) = setup();
    assert_eq!(execute(&mut keeper, &mut ledger, 7, 100), Err(ContractError::TaskNotFound));
    let task_id = register(&mut keeper, &mut ledger, 60, 10, 15).unwrap();
    // Exactly at the end of the interval is allowed.
    assert_eq!(execute(&mut keeper, &mut ledger, task_id, 60), Ok(()));
    assert_eq!(execute(&mut keeper, &mut ledger, task_id, 119), Err(ContractError::IntervalNotMet));
    // 5 left, bounty is 10.
    assert_eq!(execute(&mut keeper, &mut ledger, task_id, 120), Err(ContractError::InsufficientBountyFunds));
    run(&mut keeper, &mut ledger, |k| k.pause_task(task_id).map(|p| ((), p))).unwrap();
    assert_eq!(execute(&mut keeper, &mut ledger, task_id, 500), Err(ContractError::TaskInactive));
}

#[test]
fn execute_invokes_target_then_pays_keeper() {
    let mut keeper = AetherKeeper::new();
    keeper
        .register_task("creator".to_string(), "target".to_string(), "ping".to_string(), vec![vec![7]], 60, 10, 100, TOKEN.to_string())
        .unwrap();
    let plan = keeper.execute_task("keeper".to_string(), 0, 60).unwrap();
    assert_eq!(plan.calls.len(), 3);
    match &plan.calls[0] {
        HostCall::RequireAuth { address } => assert_eq!(address, "keeper"),
        other => panic!("unexpected call {:?}", other),
    }
    match &plan.calls[1] {
        HostCall::InvokeTarget { contract, function, args } => {
            assert_eq!(contract, "target");
            assert_eq!(function, "ping");
            assert_eq!(args, &vec![vec![7u8]]);
        }
        other => panic!("unexpected call {:?}", other),
    }
    match &plan.calls[2] {
        HostCall::PayOut { token, to, amount } => {
            assert_eq!(token, TOKEN);
            assert_eq!(to, "keeper");
            assert_eq!(*amount, 10);
        }
        other => panic!("unexpected call {:?}", other),
    }
    assert_eq!(plan.events.len(), 1);
    assert_eq!(plan.events[0].topic(), "aether_task_executed");
}

#[test]
fn execution_that_uses_up_funds_pauses_the_task() {
    let (mut keeper, mut ledger) = setup();
    let task_id = register(&mut keeper, &mut ledger, 60, 10, 10).unwrap();
    execute(&mut keeper, &mut ledger, task_id, 60).unwrap();
    let task = keeper.get_task(task_id).unwrap();
    assert_eq!(task.remaining_funds, 0);
    assert!(!task.is_active);
    let n = ledger.published.len();
    match &ledger.published[n - 2] {
        Event::TaskPaused { task_id: id, reason } => {
            assert_eq!(*id, task_id);
            assert_eq!(reason, "funds_depleted");
        }
        other => panic!("unexpected event {:?}", other),
    }
    assert_eq!(ledger.published[n - 1].topic(), "aether_task_executed");
    assert_eq!(execute(&mut keeper, &mut ledger, task_id, 10_000), Err(ContractError::TaskInactive));
}

#[test]
fn failed_target_call_undoes_the_execution() {
    let (mut keeper, mut ledger) = setup();
    let task_id = register(&mut keeper, &mut ledger, 60, 10, 100).unwrap();
    ledger.invoke_ok = false;
    assert_eq!(execute(&mut keeper, &mut ledger, task_id, 100), Err(ContractError::ContractInvocationFailed));
    let task = keeper.get_task(task_id).unwrap();
    assert_eq!(task.remaining_funds, 100);
    assert_eq!(task.execution_count, 0);
    assert_eq!(task.last_executed_at, 0);
    assert_eq!(ledger.balance(CONTRACT), 100);
    assert_eq!(ledger.balance("keeper"), 0);
}

#[test]
fn failed_funding_transfer_undoes_the_registration() {
    let (mut keeper, mut ledger) = setup();
    assert_eq!(register(&mut keeper, &mut ledger, 60, 10, 20_000), Err(ContractError::TransferFailed));
    assert_eq!(keeper.get_task(0).err(), Some(ContractError::TaskNotFound));
    // The identifier was not consumed.
    assert_eq!(register(&mut keeper, &mut ledger, 60, 10, 100), Ok(0));
}

#[test]
fn deposit_and_withdraw_reject_bad_amounts() {
    let (mut keeper, mut ledger) = setup();
    let task_id = register(&mut keeper, &mut ledger, 60, 10, 100).unwrap();
    assert_eq!(keeper.deposit_funds(task_id, 0).err().map(|r| r.error), Some(ContractError::InvalidBounty));
    assert_eq!(keeper.deposit_funds(9, 10).err().map(|r| r.error), Some(ContractError::TaskNotFound));
    assert_eq!(keeper.withdraw_funds(task_id, 0).err().map(|r| r.error), Some(ContractError::InsufficientFunding));
    assert_eq!(keeper.withdraw_funds(task_id, 101).err().map(|r| r.error), Some(ContractError::InsufficientFunding));
    assert_eq!(keeper.withdraw_funds(9, 1).err().map(|r| r.error), Some(ContractError::TaskNotFound));
    // Nothing changed.
    let task = keeper.get_task(task_id).unwrap();
    assert_eq!(task.remaining_funds, 100);
    assert!(task.is_active);
}

#[test]
fn deposit_then_withdraw_restores_funds_and_pauses() {
    let (mut keeper, mut ledger) = setup();
    let task_id = register(&mut keeper, &mut ledger, 60, 10, 100).unwrap();
    run(&mut keeper, &mut ledger, |k| k.deposit_funds(task_id, 40).map(|p| ((), p))).unwrap();
    run(&mut keeper, &mut ledger, |k| k.withdraw_funds(task_id, 40).map(|p| ((), p))).unwrap();
    let task = keeper.get_task(task_id).unwrap();
    assert_eq!(task.remaining_funds, 100);
    assert!(!task.is_active);
    assert_eq!(ledger.balance(CONTRACT), 100);
    assert_eq!(ledger.balance("creator"), 9900);
}

#[test]
fn custody_matches_remaining_funds_through_a_lifetime() {
    let (mut keeper, mut ledger) = setup();
    let a = register(&mut keeper, &mut ledger, 60, 10, 100).unwrap();
    let b = register(&mut keeper, &mut ledger, 90, 7, 50).unwrap();
    execute(&mut keeper, &mut ledger, a, 60).unwrap();
    execute(&mut keeper, &mut ledger, b, 90).unwrap();
    run(&mut keeper, &mut ledger, |k| k.deposit_funds(b, 3).map(|p| ((), p))).unwrap();
    run(&mut keeper, &mut ledger, |k| k.withdraw_funds(a, 20).map(|p| ((), p))).unwrap();
    let total = keeper.get_task(a).unwrap().remaining_funds + keeper.get_task(b).unwrap().remaining_funds;
    assert_eq!(total, ledger.balance(CONTRACT));
    run(&mut keeper, &mut ledger, |k| k.cancel_task(a).map(|p| ((), p))).unwrap();
    assert_eq!(keeper.get_task(b).unwrap().remaining_funds, ledger.balance(CONTRACT));
}

#[test]
fn cancel_of_emptied_task_makes_no_transfer() {
    let mut keeper = AetherKeeper::new();
    keeper.register_task("c".to_string(), "t".to_string(), "f".to_string(), Vec::new(), 60, 10, 10, "tok".to_string()).unwrap();
    keeper.execute_task("k".to_string(), 0, 60).unwrap();
    let plan = keeper.cancel_task(0).unwrap();
    assert_eq!(plan.calls.len(), 1);
    match &plan.calls[0] {
        HostCall::RequireAuth { address } => assert_eq!(address, "c"),
        other => panic!("unexpected call {:?}", other),
    }
    assert_eq!(plan.events.len(), 1);
    match &plan.events[0] {
        Event::TaskCancelled { task_id, reason } => {
            assert_eq!(*task_id, 0);
            assert_eq!(reason, "creator_cancelled");
        }
        other => panic!("unexpected event {:?}", other),
    }
    assert_eq!(keeper.cancel_task(0).err().map(|r| r.error), Some(ContractError::TaskNotFound));
}

#[test]
fn pause_and_resume_of_missing_task() {
    let mut keeper = AetherKeeper::new();
    assert_eq!(keeper.pause_task(3).err().map(|r| r.error), Some(ContractError::TaskNotFound));
    assert_eq!(keeper.resume_task(3).err().map(|r| r.error), Some(ContractError::TaskNotFound));
}

#[test]
fn pause_then_resume_restores_task() {
    let mut keeper = AetherKeeper::new();
    keeper.register_task("c".to_string(), "t".to_string(), "f".to_string(), Vec::new(), 60, 10, 100, "tok".to_string()).unwrap();
    let paused = keeper.pause_task(0).unwrap();
    assert_eq!(paused.events[0].topic(), "aether_task_paused");
    match &paused.events[0] {
        Event::TaskPaused { reason, .. } => assert_eq!(reason, "creator_paused"),
        other => panic!("unexpected event {:?}", other),
    }
    let resumed = keeper.resume_task(0).unwrap();
    assert_eq!(resumed.events[0].topic(), "aether_task_resumed");
    let task = keeper.get_task(0).unwrap();
    assert!(task.is_active);
    assert_eq!(task.remaining_funds, 100);
}

#[test]
fn initialization_after_registration_keeps_identifiers_unique() {
    let mut keeper = AetherKeeper::new();
    let (id, _) = keeper.register_task("c".to_string(), "t".to_string(), "f".to_string(), Vec::new(), 60, 10, 100, "tok".to_string()).unwrap();
    assert_eq!(id, 0);
    let plan = keeper.initialize("admin".to_string()).unwrap();
    match &plan.calls[0] {
        HostCall::RequireAuth { address } => assert_eq!(address, "admin"),
        other => panic!("unexpected call {:?}", other),
    }
    assert_eq!(keeper.admin(), Some("admin".to_string()));
    assert_eq!(keeper.task_counter(), 1);
    let (id, _) = keeper.register_task("d".to_string(), "t".to_string(), "f".to_string(), Vec::new(), 60, 10, 100, "tok".to_string()).unwrap();
    assert_eq!(id, 1);
    assert_eq!(keeper.get_task(0).unwrap().creator, "c");
    assert_eq!(keeper.get_task(1).unwrap().creator, "d");
}

#[test]
fn unauthorized_callers_are_refused_and_change_nothing() {
    let (mut keeper, mut ledger) = setup();
    let task_id = register(&mut keeper, &mut ledger, 60, 10, 100).unwrap();

    ledger.authorized.remove("keeper");
    assert_eq!(execute(&mut keeper, &mut ledger, task_id, 100), Err(ContractError::Unauthorized));
    assert_eq!(ledger.balance(CONTRACT), 100);
    assert_eq!(keeper.get_task(task_id).unwrap().execution_count, 0);

    ledger.authorized.remove("creator");
    let r = run(&mut keeper, &mut ledger, |k| k.withdraw_funds(task_id, 30).map(|p| ((), p)));
    assert_eq!(r, Err(ContractError::Unauthorized));
    let r = run(&mut keeper, &mut ledger, |k| k.pause_task(task_id).map(|p| ((), p)));
    assert_eq!(r, Err(ContractError::Unauthorized));
    let r = run(&mut keeper, &mut ledger, |k| k.cancel_task(task_id).map(|p| ((), p)));
    assert_eq!(r, Err(ContractError::Unauthorized));
    let task = keeper.get_task(task_id).unwrap();
    assert_eq!(task.remaining_funds, 100);
    assert!(task.is_active);
    assert_eq!(ledger.balance(CONTRACT), 100);
    assert_eq!(ledger.balance("creator"), 9900);

    // Authorization comes before the request is examined further.
    let r = run(&mut keeper, &mut ledger, |k| k.withdraw_funds(task_id, 0).map(|p| ((), p)));
    assert_eq!(r, Err(ContractError::Unauthorized));
    let r = run(&mut keeper, &mut ledger, |k| k.deposit_funds(task_id, -1).map(|p| ((), p)));
    assert_eq!(r, Err(ContractError::Unauthorized));
    assert_eq!(register(&mut keeper, &mut ledger, 0, 10, 100), Err(ContractError::Unauthorized));
    assert_eq!(execute(&mut keeper, &mut ledger, 42, 100), Err(ContractError::Unauthorized));
    // ... except that a missing task is reported before any authorization is asked for.
    let r = run(&mut keeper, &mut ledger, |k| k.pause_task(42).map(|p| ((), p)));
    assert_eq!(r, Err(ContractError::TaskNotFound));
    let r = run(&mut keeper, &mut ledger, |k| k.withdraw_funds(42, 5).map(|p| ((), p)));
    assert_eq!(r, Err(ContractError::TaskNotFound));

    let mut fresh = AetherKeeper::new();
    ledger.authorized.remove("admin");
    assert_eq!(initialize(&mut fresh, &mut ledger, "admin"), Err(ContractError::Unauthorized));
    assert_eq!(fresh.admin(), None);
    // A second initialization is refused before any authorization is asked for.
    assert_eq!(initialize(&mut keeper, &mut ledger, "admin"), Err(ContractError::AlreadyInitialized));
}

#[test]
fn refusals_name_who_authorizes_first() {
    let mut keeper = AetherKeeper::new();
    let r = keeper
        .register_task("c".to_string(), "t".to_string(), "f".to_string(), Vec::new(), 10, 10, 100, "tok".to_string())
        .unwrap_err();
    assert_eq!(r.error, ContractError::InvalidInterval);
    assert_eq!(r.authorizer, Some("c".to_string()));
    match r.required_call() {
        Some(HostCall::RequireAuth { address }) => assert_eq!(address, "c"),
        other => panic!("unexpected call {:?}", other),
    }
    let r = keeper.execute_task("k".to_string(), 5, 0).unwrap_err();
    assert_eq!((r.error, r.authorizer), (ContractError::TaskNotFound, Some("k".to_string())));
    let r = keeper.cancel_task(5).unwrap_err();
    assert_eq!((r.error, r.authorizer.clone()), (ContractError::TaskNotFound, None));
    assert!(r.required_call().is_none());
    keeper
        .register_task("c".to_string(), "t".to_string(), "f".to_string(), Vec::new(), 60, 10, 100, "tok".to_string())
        .unwrap();
    let r = keeper.withdraw_funds(0, 101).unwrap_err();
    assert_eq!((r.error, r.authorizer), (ContractError::InsufficientFunding, Some("c".to_string())));
    let r = keeper.initialize("a".to_string()).map(|_| ()).and_then(|_| keeper.initialize("b".to_string()).map(|_| ()));
    let r = r.unwrap_err();
    assert_eq!((r.error, r.authorizer), (ContractError::AlreadyInitialized, None));
}

#[test]
fn error_codes() {
    let all = [
        ContractError::AlreadyInitialized,
        ContractError::NotInitialized,
        ContractError::Unauthorized,
        ContractError::InsufficientFunding,
        ContractError::TaskNotFound,
        ContractError::IntervalNotMet,
        ContractError::InsufficientBountyFunds,
        ContractError::TaskInactive,
        ContractError::ExecutionLimitReached,
        ContractError::InvalidInterval,
        ContractError::InvalidBounty,
        ContractError::ContractInvocationFailed,
        ContractError::TransferFailed,
    ];
    for (i, e) in all.iter().enumerate() {
        assert_eq!(e.code(), i as u32 + 1);
        assert_eq!(u32::from(*e), i as u32 + 1);
    }
}

#[test]
fn failure_errors_of_host_calls() {
    let t = HostCall::CollectFunds { token: "t".to_string(), from: "a".to_string(), amount: 1 };
    let p = HostCall::PayOut { token: "t".to_string(), to: "a".to_string(), amount: 1 };
    let i = HostCall::InvokeTarget { contract: "c".to_string(), function: "f".to_string(), args: Vec::new() };
    let a = HostCall::RequireAuth { address: "a".to_string() };
    assert_eq!(a.failure_error(), ContractError::Unauthorized);
    assert!(a.failure_event(3).is_none());
    assert!(t.failure_event(3).is_none());
    assert!(p.failure_event(3).is_none());
    match i.failure_event(3) {
        Some(Event::ExecutionError { task_id, error_code }) => {
            assert_eq!(task_id, 3);
            assert_eq!(error_code, 12);
        }
        other => panic!("unexpected event {:?}", other),
    }
    assert_eq!(t.failure_error(), ContractError::TransferFailed);
    assert_eq!(p.failure_error(), ContractError::TransferFailed);
    assert_eq!(i.failure_error(), ContractError::ContractInvocationFailed);
}

#[test]
fn event_topics() {
    assert_eq!(emit_task_registered(1, "c".to_string(), 2).topic(), "aether_task_registered");
    assert_eq!(emit_task_executed(1, "k".to_string(), 2).topic(), "aether_task_executed");
    assert_eq!(emit_task_paused(1, "r".to_string()).topic(), "aether_task_paused");
    assert_eq!(emit_task_resumed(1).topic(), "aether_task_resumed");
    assert_eq!(emit_task_cancelled(1, "r".to_string()).topic(), "aether_task_cancelled");
    assert_eq!(emit_funds_withdrawn(1, 2, "c".to_string()).topic(), "aether_funds_withdrawn");
    assert_eq!(emit_funds_deposited(1, 2, "c".to_string()).topic(), "aether_funds_deposited");
    assert_eq!(emit_execution_error(1, 12).topic(), "aether_execution_error");
}

#[test]
fn storage_tiers() {
    assert_eq!(DataKey::Admin.tier(), StorageTier::Instance);
    assert_eq!(DataKey::TaskCounter.tier(), StorageTier::Instance);
    assert_eq!(DataKey::Task(3).tier(), StorageTier::Persistent);
    assert_eq!(DataKey::TaskExecutionHistory(3, 1).tier(), StorageTier::Persistent);
}

fn stored_task(creator: &str, interval: u64, bounty: i128, remaining: i128) -> aether_keeper::storage::TaskConfig {
    aether_keeper::storage::TaskConfig {
        creator: creator.to_string(),
        target_contract: "target".to_string(),
        function: "ping".to_string(),
        args: Vec::new(),
        interval,
        last_executed_at: 0,
        bounty_per_exec: bounty,
        remaining_funds: remaining,
        token: TOKEN.to_string(),
        is_active: true,
        max_executions: 0,
        execution_count: 0,
    }
}

#[test]
fn registry_rebuilds_from_stored_parts() {
    let tasks = vec![(4, stored_task("a", 60, 10, 100)), (9, stored_task("b", 90, 5, 0)), (4, stored_task("c", 60, 10, 50))];
    let keeper = AetherKeeper::from_parts(Some("admin".to_string()), 12, &tasks).unwrap();
    assert_eq!(keeper.admin(), Some("admin".to_string()));
    assert_eq!(keeper.task_counter(), 12);
    // The later pair for the same identifier wins.
    assert_eq!(keeper.get_task(4).unwrap().creator, "c");
    assert_eq!(keeper.get_task(9).unwrap().remaining_funds, 0);
    assert!(keeper.get_task(5).is_err());

    let fresh = AetherKeeper::from_parts(None, 0, &Vec::new()).unwrap();
    assert_eq!(fresh.admin(), None);
    assert_eq!(fresh.task_counter(), 0);
}

#[test]
fn registry_refuses_invalid_stored_tasks() {
    assert!(AetherKeeper::from_parts(None, 1, &vec![(0, stored_task("a", 0, 10, 100))]).is_none());
    assert!(AetherKeeper::from_parts(None, 1, &vec![(0, stored_task("a", 60, 0, 100))]).is_none());
    assert!(AetherKeeper::from_parts(None, 1, &vec![(0, stored_task("a", 60, 10, -1))]).is_none());
    // An identifier at or above the counter could be handed out again.
    assert!(AetherKeeper::from_parts(None, 1, &vec![(1, stored_task("a", 60, 10, 100))]).is_none());
    let mut over = stored_task("a", 60, 10, 100);
    over.max_executions = 2;
    over.execution_count = 3;
    assert!(AetherKeeper::from_parts(None, 1, &vec![(0, over)]).is_none());
}

#[test]
fn executions_stay_spaced_across_other_operations() {
    let (mut keeper, mut ledger) = setup();
    let task_id = register(&mut keeper, &mut ledger, 60, 10, 100).unwrap();
    execute(&mut keeper, &mut ledger, task_id, 60).unwrap();
    run(&mut keeper, &mut ledger, |k| k.pause_task(task_id).map(|p| ((), p))).unwrap();
    run(&mut keeper, &mut ledger, |k| k.resume_task(task_id).map(|p| ((), p))).unwrap();
    run(&mut keeper, &mut ledger, |k| k.deposit_funds(task_id, 5).map(|p| ((), p))).unwrap();
    assert_eq!(execute(&mut keeper, &mut ledger, task_id, 119), Err(ContractError::IntervalNotMet));
    assert_eq!(execute(&mut keeper, &mut ledger, task_id, 120), Ok(()));
    let task = keeper.get_task(task_id).unwrap();
    assert_eq!(task.execution_count, 2);
    assert_eq!(task.last_executed_at, 120);
    assert_eq!(task.remaining_funds, 85);
}
