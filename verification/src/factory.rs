//! The factory's configuration and message vocabulary.

use vstd::prelude::*;
use crate::project::Project;

verus! {

/// Per-factory static configuration, set once at instantiation: the code
/// template used to spawn project instances and the addresses of the
/// external money-market collaborators.
#[derive(Clone, Debug)]
pub struct Config {
    pub anchor_money_market_address: String,
    pub a_ust_address: String,
    pub project_code_id: u64,
}

/// Factory instantiation: both collaborator addresses are required, and
/// their absence rejects the whole instantiation.
#[derive(Clone, Debug)]
pub struct InstantiateMsg {
    pub project_code_id: u64,
    pub anchor_money_market_address: Option<String>,
    pub a_ust_address: Option<String>,
}

/// Actions a client can ask of the factory.
#[derive(Clone, Debug)]
pub enum ExecuteMsg {
    CreateProject {
        name: String,
        target_principal_amount: u128,
        target_yield_amount: u128,
        fund_deadline: u64,
    },
    UpdateAdmin { new_admin: Option<String> },
}

/// Read-only questions about the factory's registry.
#[derive(Clone, Debug)]
pub enum QueryMsg {
    GetProjectContractAddress { name: String },
}

/// The bound address of a named project, answering `GetProjectContractAddress`.
#[derive(Clone, Debug)]
pub struct ProjectContractAddressResponse {
    pub address: String,
}

/// The child-instantiation request the factory hands to the host: which
/// code template to spawn, who administers the child, and the fully formed
/// initial project record the child starts from.  The host answers it later
/// with a `Reply` carrying this same id.
#[derive(Clone, Debug)]
pub struct ProjectInstantiation {
    pub id: u64,
    pub code_id: u64,
    pub admin: String,
    pub project: Project,
}

} // verus!
