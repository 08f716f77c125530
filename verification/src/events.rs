//! Events that the registry publishes when an operation succeeds.
use vstd::prelude::*;

verus! {

/// A published event: its topic is fixed by the variant, its payload by the fields.
#[derive(Clone, Debug)]
pub enum Event {
    TaskRegistered { task_id: u64, creator: String, bounty_per_exec: i128 },
    TaskExecuted { task_id: u64, keeper: String, bounty_paid: i128 },
    TaskPaused { task_id: u64, reason: String },
    TaskResumed { task_id: u64 },
    TaskCancelled { task_id: u64, reason: String },
    FundsWithdrawn { task_id: u64, amount: i128, recipient: String },
    FundsDeposited { task_id: u64, amount: i128, depositor: String },
    ExecutionError { task_id: u64, error_code: u32 },
}

/// The mathematical value of an [`Event`].
pub enum EventView {
    TaskRegistered { task_id: u64, creator: Seq<char>, bounty_per_exec: i128 },
    TaskExecuted { task_id: u64, keeper: Seq<char>, bounty_paid: i128 },
    TaskPaused { task_id: u64, reason: Seq<char> },
    TaskResumed { task_id: u64 },
    TaskCancelled { task_id: u64, reason: Seq<char> },
    FundsWithdrawn { task_id: u64, amount: i128, recipient: Seq<char> },
    FundsDeposited { task_id: u64, amount: i128, depositor: Seq<char> },
    ExecutionError { task_id: u64, error_code: u32 },
}

impl View for Event {
    type V = EventView;

    open spec fn view(&self) -> EventView {
        match self {
            Event::TaskRegistered { task_id, creator, bounty_per_exec } => EventView::TaskRegistered {
                task_id: *task_id,
                creator: creator@,
                bounty_per_exec: *bounty_per_exec,
            },
            Event::TaskExecuted { task_id, keeper, bounty_paid } => EventView::TaskExecuted {
                task_id: *task_id,
                keeper: keeper@,
                bounty_paid: *bounty_paid,
            },
            Event::TaskPaused { task_id, reason } => EventView::TaskPaused {
                task_id: *task_id,
                reason: reason@,
            },
            Event::TaskResumed { task_id } => EventView::TaskResumed { task_id: *task_id },
            Event::TaskCancelled { task_id, reason } => EventView::TaskCancelled {
                task_id: *task_id,
                reason: reason@,
            },
            Event::FundsWithdrawn { task_id, amount, recipient } => EventView::FundsWithdrawn {
                task_id: *task_id,
                amount: *amount,
                recipient: recipient@,
            },
            Event::FundsDeposited { task_id, amount, depositor } => EventView::FundsDeposited {
                task_id: *task_id,
                amount: *amount,
                depositor: depositor@,
            },
            Event::ExecutionError { task_id, error_code } => EventView::ExecutionError {
                task_id: *task_id,
                error_code: *error_code,
            },
        }
    }
}

/// The topic under which an event is published.
pub open spec fn event_topic(e: EventView) -> Seq<char> {
    match e {
        EventView::TaskRegistered { .. } => "aether_task_registered"@,
        EventView::TaskExecuted { .. } => "aether_task_executed"@,
        EventView::TaskPaused { .. } => "aether_task_paused"@,
        EventView::TaskResumed { .. } => "aether_task_resumed"@,
        EventView::TaskCancelled { .. } => "aether_task_cancelled"@,
        EventView::FundsWithdrawn { .. } => "aether_funds_withdrawn"@,
        EventView::FundsDeposited { .. } => "aether_funds_deposited"@,
        EventView::ExecutionError { .. } => "aether_execution_error"@,
    }
}

impl Event {
    /// The topic under which this event is published.
    pub fn topic(&self) -> (t: &'static str)
        ensures
            t@ == event_topic(self@),
    {
        match self {
            Event::TaskRegistered { .. } => "aether_task_registered",
            Event::TaskExecuted { .. } => "aether_task_executed",
            Event::TaskPaused { .. } => "aether_task_paused",
            Event::TaskResumed { .. } => "aether_task_resumed",
            Event::TaskCancelled { .. } => "aether_task_cancelled",
            Event::FundsWithdrawn { .. } => "aether_funds_withdrawn",
            Event::FundsDeposited { .. } => "aether_funds_deposited",
            Event::ExecutionError { .. } => "aether_execution_error",
        }
    }
}

/// The event published when a task is registered.
pub fn emit_task_registered(task_id: u64, creator: String, bounty_per_exec: i128) -> (e: Event)
    ensures
        e@ == (EventView::TaskRegistered { task_id, creator: creator@, bounty_per_exec }),
{
    Event::TaskRegistered { task_id, creator, bounty_per_exec }
}

/// The event published when a task is executed.
pub fn emit_task_executed(task_id: u64, keeper: String, bounty_paid: i128) -> (e: Event)
    ensures
        e@ == (EventView::TaskExecuted { task_id, keeper: keeper@, bounty_paid }),
{
    Event::TaskExecuted { task_id, keeper, bounty_paid }
}

/// The event published when a task is paused.
pub fn emit_task_paused(task_id: u64, reason: String) -> (e: Event)
    ensures
        e@ == (EventView::TaskPaused { task_id, reason: reason@ }),
{
    Event::TaskPaused { task_id, reason }
}

/// The event published when a task is resumed.
pub fn emit_task_resumed(task_id: u64) -> (e: Event)
    ensures
        e@ == (EventView::TaskResumed { task_id }),
{
    Event::TaskResumed { task_id }
}

/// The event published when a task is cancelled.
pub fn emit_task_cancelled(task_id: u64, reason: String) -> (e: Event)
    ensures
        e@ == (EventView::TaskCancelled { task_id, reason: reason@ }),
{
    Event::TaskCancelled { task_id, reason }
}

/// The event published when funds are withdrawn from a task.
pub fn emit_funds_withdrawn(task_id: u64, amount: i128, recipient: String) -> (e: Event)
    ensures
        e@ == (EventView::FundsWithdrawn { task_id, amount, recipient: recipient@ }),
{
    Event::FundsWithdrawn { task_id, amount, recipient }
}

/// The event published when funds are deposited to a task.
pub fn emit_funds_deposited(task_id: u64, amount: i128, depositor: String) -> (e: Event)
    ensures
        e@ == (EventView::FundsDeposited { task_id, amount, depositor: depositor@ }),
{
    Event::FundsDeposited { task_id, amount, depositor }
}

/// The event reported when the target contract of a task fails.
pub fn emit_execution_error(task_id: u64, error_code: u32) -> (e: Event)
    ensures
        e@ == (EventView::ExecutionError { task_id, error_code }),
{
    Event::ExecutionError { task_id, error_code }
}

} // verus!
