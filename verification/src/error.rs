//! Errors that the registry reports to its callers.
use vstd::prelude::*;

verus! {

/// Every way a registry operation can be refused.
#[derive(Debug, Clone, Copy, PartialEq, Eq, Structural)]
pub enum ContractError {
    AlreadyInitialized,
    NotInitialized,
    Unauthorized,
    InsufficientFunding,
    TaskNotFound,
    IntervalNotMet,
    InsufficientBountyFunds,
    TaskInactive,
    ExecutionLimitReached,
    InvalidInterval,
    InvalidBounty,
    ContractInvocationFailed,
    TransferFailed,
}

/// The numeric code under which each error is published.
pub open spec fn error_code(e: ContractError) -> u32 {
    match e {
        ContractError::AlreadyInitialized => 1,
        ContractError::NotInitialized => 2,
        ContractError::Unauthorized => 3,
        ContractError::InsufficientFunding => 4,
        ContractError::TaskNotFound => 5,
        ContractError::IntervalNotMet => 6,
        ContractError::InsufficientBountyFunds => 7,
        ContractError::TaskInactive => 8,
        ContractError::ExecutionLimitReached => 9,
        ContractError::InvalidInterval => 10,
        ContractError::InvalidBounty => 11,
        ContractError::ContractInvocationFailed => 12,
        ContractError::TransferFailed => 13,
    }
}

impl ContractError {
    /// The numeric code of this error.
    pub fn code(&self) -> (c: u32)
        ensures
            c == error_code(*self),
    {
        match self {
            ContractError::AlreadyInitialized => 1,
            ContractError::NotInitialized => 2,
            ContractError::Unauthorized => 3,
            ContractError::InsufficientFunding => 4,
            ContractError::TaskNotFound => 5,
            ContractError::IntervalNotMet => 6,
            ContractError::InsufficientBountyFunds => 7,
            ContractError::TaskInactive => 8,
            ContractError::ExecutionLimitReached => 9,
            ContractError::InvalidInterval => 10,
            ContractError::InvalidBounty => 11,
            ContractError::ContractInvocationFailed => 12,
            ContractError::TransferFailed => 13,
        }
    }
}

impl From<ContractError> for u32 {
    fn from(err: ContractError) -> (c: u32) {
        err.code()
    }
}

impl vstd::std_specs::convert::FromSpecImpl<ContractError> for u32 {
    open spec fn obeys_from_spec() -> bool {
        true
    }

    open spec fn from_spec(v: ContractError) -> u32 {
        error_code(v)
    }
}

} // verus!
