//! The project ledger's record, lifecycle states, and message vocabulary.

use vstd::prelude::*;

verus! {

/// Lifecycle of one crowdfunding project.
///
/// `FundingInProgress` is the initial state.  Once the funding deadline has
/// passed, the automatic rule moves a project still funding to `Delivery`
/// when the principal target was reached, and to `ProjectClosedFail`
/// otherwise.  `ProjectClosedSuccess` and `ProjectClosedFail` are terminal:
/// the record persists for historical queries but takes no more funding.
/// An admin may force any status at any time as a deliberate escape hatch.
#[derive(Clone, Copy, Debug, PartialEq, Eq, Structural)]
pub enum ProjectStatus {
    FundingInProgress,
    Delivery,
    ProjectClosedSuccess,
    ProjectClosedFail,
}

/// One crowdfunding campaign.  `principal_amount` is the running total of
/// funded principal; every other field is fixed at creation, and `project_status`
/// moves only as `change_status` directs.
#[derive(Debug)]
pub struct Project {
    pub name: String,
    pub creator: String,
    pub creation_date: u64,
    pub project_status: ProjectStatus,
    pub target_principal_amount: u128,
    pub target_yield_amount: u128,
    pub principal_amount: u128,
    pub fund_deadline: u64,
}

impl Clone for Project {
    /// An exact copy, so a query can hand the record out whole.
    fn clone(&self) -> (res: Self)
        ensures
            res == *self,
    {
        Project {
            name: self.name.clone(),
            creator: self.creator.clone(),
            creation_date: self.creation_date,
            project_status: self.project_status,
            target_principal_amount: self.target_principal_amount,
            target_yield_amount: self.target_yield_amount,
            principal_amount: self.principal_amount,
            fund_deadline: self.fund_deadline,
        }
    }
}

impl Project {
    /// Two records agree on every field the ledger never changes.
    pub open spec fn same_immutable_fields(self, other: Project) -> bool {
        &&& self.name@ == other.name@
        &&& self.creator@ == other.creator@
        &&& self.creation_date == other.creation_date
        &&& self.target_principal_amount == other.target_principal_amount
        &&& self.target_yield_amount == other.target_yield_amount
        &&& self.fund_deadline == other.fund_deadline
    }
}

/// Initial record for a new project instance, supplied whole by the factory.
#[derive(Clone, Debug)]
pub struct InstantiateMsg {
    pub project: Project,
}

/// Actions a client can ask of one project instance.
#[derive(Clone, Debug)]
pub enum ExecuteMsg {
    UpdateAdmin { new_admin: Option<String> },
    FundProject {},
    WithdrawPrincipal {},
    ChangeProjectStatus { project_status: Option<ProjectStatus> },
    WithdrawYield {},
}

/// Read-only questions about one project instance.
#[derive(Clone, Debug)]
pub enum QueryMsg {
    GetProjectStatus {},
    GetUserBalance { user: Option<String> },
}

/// The full project record, answering `GetProjectStatus`.
#[derive(Clone, Debug)]
pub struct ProjectStatusResponse {
    pub project_status: Project,
}

/// One user's recorded backing, answering `GetUserBalance`; zero when the
/// user never funded this project.
#[derive(Clone, Copy, Debug, PartialEq, Eq, Structural)]
pub struct UserBalanceResponse {
    pub user_balance: u128,
}

} // verus!
