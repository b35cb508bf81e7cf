//! Error taxonomy shared by the factory and the project ledger.

use vstd::prelude::*;

verus! {

/// Every way a factory or project invocation can fail.  All errors are
/// terminal for the enclosing invocation: the caller must roll back any
/// state it copied out before the call.
#[derive(Clone, Copy, Debug, PartialEq, Eq, Structural)]
pub enum ContractError {
    /// A required collaborator address was absent at instantiation.
    InvalidAddress,
    /// The caller is not the current admin.
    Unauthorized,
    /// The funded amount is below the fixed deposit floor.
    DepositMinimumError,
    /// The project is in a terminal state and takes no further funding.
    UnableToFundProject,
    /// The yield computation failed; treated as fatal, never retried.
    UnableToAcquireYield,
    /// The creator asked for yield before the project closed successfully.
    CreatorUnableToWithdrawYield,
    /// The name already maps to a bound registry entry.
    DuplicateProject,
    /// The creation protocol was violated: a creation is already in
    /// flight, the acknowledgment is malformed, or its id is unknown.
    UnableToCreateNewProject,
    /// An acknowledgment arrived with no pending creation to resolve.
    NoPendingProject,
    /// A point lookup found no entry under the given name.
    NotFound,
    /// The caller has no recorded backing for this project.
    NoBackingFound,
}

impl ContractError {
    /// A short description, one per variant, for hosts that log errors.
    pub fn describe(&self) -> (r: &'static str) {
        match self {
            ContractError::InvalidAddress => "Invalid address",
            ContractError::Unauthorized => "Unauthorized",
            ContractError::DepositMinimumError => "Must deposit at least $20 UST",
            ContractError::UnableToFundProject => "Unable to fund project",
            ContractError::UnableToAcquireYield => "Unable to acquire yield",
            ContractError::CreatorUnableToWithdrawYield => "Creator unable to withdraw yield",
            ContractError::DuplicateProject => "Project already exists",
            ContractError::UnableToCreateNewProject => "Unable to create new project",
            ContractError::NoPendingProject => "No project creation is pending",
            ContractError::NotFound => "Not found",
            ContractError::NoBackingFound => "No backing found",
        }
    }
}

} // verus!
