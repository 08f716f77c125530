//! Requests that a registry operation makes of the ledger host, and their failures.
use vstd::prelude::*;
use crate::error::{error_code, ContractError};
use crate::events::{emit_execution_error, Event, EventView};

verus! {

/// A call into the ledger host that an operation needs to complete.
///
/// An operation is committed only if every call it asks for succeeds; when
/// one fails, the whole operation is undone and [`HostCall::failure_error`]
/// names the error that it reports.
#[derive(Clone, Debug)]
pub enum HostCall {
    /// Require that `address` has authorized this operation.
    RequireAuth { address: String },
    /// Move `amount` of `token` from `from` into the registry's custody.
    CollectFunds { token: String, from: String, amount: i128 },
    /// Move `amount` of `token` out of the registry's custody to `to`.
    PayOut { token: String, to: String, amount: i128 },
    /// Invoke `function` on `contract` with the encoded `args`.
    InvokeTarget { contract: String, function: String, args: Vec<Vec<u8>> },
}

/// The mathematical value of a [`HostCall`].
pub enum HostCallView {
    RequireAuth { address: Seq<char> },
    CollectFunds { token: Seq<char>, from: Seq<char>, amount: i128 },
    PayOut { token: Seq<char>, to: Seq<char>, amount: i128 },
    InvokeTarget { contract: Seq<char>, function: Seq<char>, args: Seq<Seq<u8>> },
}

impl View for HostCall {
    type V = HostCallView;

    open spec fn view(&self) -> HostCallView {
        match self {
            HostCall::RequireAuth { address } => HostCallView::RequireAuth { address: address@ },
            HostCall::CollectFunds { token, from, amount } => HostCallView::CollectFunds {
                token: token@,
                from: from@,
                amount: *amount,
            },
            HostCall::PayOut { token, to, amount } => HostCallView::PayOut {
                token: token@,
                to: to@,
                amount: *amount,
            },
            HostCall::InvokeTarget { contract, function, args } => HostCallView::InvokeTarget {
                contract: contract@,
                function: function@,
                args: args.deep_view(),
            },
        }
    }
}

/// The error an operation reports when this call fails.
pub open spec fn call_failure(c: HostCallView) -> ContractError {
    match c {
        HostCallView::RequireAuth { .. } => ContractError::Unauthorized,
        HostCallView::InvokeTarget { .. } => ContractError::ContractInvocationFailed,
        _ => ContractError::TransferFailed,
    }
}

/// The event reported about task `task_id` when call `c` fails, if any.
pub open spec fn call_failure_event(c: HostCallView, task_id: u64) -> Option<EventView> {
    match c {
        HostCallView::InvokeTarget { .. } => Some(EventView::ExecutionError {
            task_id,
            error_code: error_code(ContractError::ContractInvocationFailed),
        }),
        _ => None,
    }
}

/// What one call moves into the registry's custody, counting only `token`.
pub open spec fn call_inflow_of(c: HostCallView, token: Seq<char>) -> int {
    match c {
        HostCallView::CollectFunds { token: t, amount, .. } => if t == token { amount as int } else { 0 },
        HostCallView::PayOut { token: t, amount, .. } => if t == token { -amount } else { 0 },
        _ => 0,
    }
}

/// Net amount of `token` that a sequence of calls moves into the registry's custody.
pub open spec fn net_inflow_of(calls: Seq<HostCallView>, token: Seq<char>) -> int
    decreases calls.len(),
{
    if calls.len() == 0 {
        0
    } else {
        net_inflow_of(calls.drop_last(), token) + call_inflow_of(calls.last(), token)
    }
}

impl HostCall {
    /// The error an operation reports when this call fails.
    pub fn failure_error(&self) -> (e: ContractError)
        ensures
            e == call_failure(self@),
    {
        match self {
            HostCall::RequireAuth { .. } => ContractError::Unauthorized,
            HostCall::InvokeTarget { .. } => ContractError::ContractInvocationFailed,
            _ => ContractError::TransferFailed,
        }
    }

    /// The event reported about task `task_id` when this call fails: a failed
    /// target invocation is reported with its error code; other failures are not.
    pub fn failure_event(&self, task_id: u64) -> (e: Option<Event>)
        ensures
            match e {
                Some(ev) => call_failure_event(self@, task_id) == Some(ev@),
                None => call_failure_event(self@, task_id) is None,
            },
    {
        match self {
            HostCall::InvokeTarget { .. } => Some(emit_execution_error(task_id, ContractError::ContractInvocationFailed.code())),
            _ => None,
        }
    }
}

/// A refused operation: the error it reports and, where the operation is one
/// whose caller must authorize before the request is examined, that caller.
/// The host first requires `authorizer`'s authorization (a refusal of it is
/// answered with `Unauthorized`), then reports `error`; nothing else happens.
#[derive(Clone, Debug)]
pub struct Refusal {
    pub error: ContractError,
    pub authorizer: Option<String>,
}

/// The mathematical value of a [`Refusal`].
pub struct RefusalView {
    pub error: ContractError,
    pub authorizer: Option<Seq<char>>,
}

impl View for Refusal {
    type V = RefusalView;

    open spec fn view(&self) -> RefusalView {
        RefusalView {
            error: self.error,
            authorizer: match self.authorizer {
                Some(a) => Some(a@),
                None => None,
            },
        }
    }
}

impl Refusal {
    /// The call that the host makes before reporting the refusal, if any.
    pub fn required_call(&self) -> (c: Option<HostCall>)
        ensures
            match c {
                Some(call) => self@.authorizer matches Some(a) && call@ == (HostCallView::RequireAuth { address: a }),
                None => self@.authorizer is None,
            },
    {
        match &self.authorizer {
            Some(a) => Some(HostCall::RequireAuth { address: a.clone() }),
            None => None,
        }
    }
}

/// What a successful operation asks of the host: calls to make, in order,
/// and events to publish once they have all succeeded.
#[derive(Clone, Debug)]
pub struct Plan {
    pub calls: Vec<HostCall>,
    pub events: Vec<Event>,
}

/// The mathematical value of a [`Plan`].
pub struct PlanView {
    pub calls: Seq<HostCallView>,
    pub events: Seq<EventView>,
}

impl View for Plan {
    type V = PlanView;

    open spec fn view(&self) -> PlanView {
        PlanView {
            calls: self.calls@.map_values(|c: HostCall| c@),
            events: self.events@.map_values(|e: Event| e@),
        }
    }
}

} // verus!
