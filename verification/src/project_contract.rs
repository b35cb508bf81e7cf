//! The project ledger's operations: funding, withdrawal, status transition
//! and yield distribution, each a function from the ledger's state and the
//! invocation context to the next state and a response.
//!
//! Conditions that mean "not allowed right now, retry later" come back as
//! successful no-op responses; conditions that mean "this request is
//! invalid" come back as errors, and an error leaves the state untouched.

use vstd::prelude::*;
use vstd::string::StringExecFns;
use crate::backings::{
    balance_of, lemma_balance_le_total, lemma_total_nonneg, set_balance, spec_balance,
    spec_balance_or_zero, spec_total, unique_backers, Backing,
};
use crate::error::ContractError;
use crate::host::{denom_amount, is_admin, spec_denom_amount, Coin, Env, MessageInfo};
use crate::project::{
    ExecuteMsg, InstantiateMsg, Project, ProjectStatus, ProjectStatusResponse, QueryMsg,
    UserBalanceResponse,
};
use crate::yield_calc::{
    lemma_accrued_nonneg, lemma_pro_rata_le_amount, spec_accrued, spec_days, spec_pro_rata,
    yield_computable, compute_yield, pro_rata_share, SECONDS_PER_DAY,
};

verus! {

/// One base-currency unit, in the micro denomination the host counts in.
pub const BASE_AMOUNT: u128 = 1_000_000;

/// The deposit floor: 20 base units.
pub const MIN_DEPOSIT: u128 = 20 * BASE_AMOUNT;

/// One project instance's full persisted state: the admin slot, the project
/// record, and its backer ledger.
#[derive(Debug)]
pub struct ProjectState {
    pub admin: Option<String>,
    pub project: Project,
    pub backings: Vec<Backing>,
}

impl ProjectState {
    /// Well-formedness: backers are recorded at most once, and the recorded
    /// contributions never sum past the running principal.  (The sum may
    /// fall below the principal: backer yield withdrawals decrement the
    /// backer's record as payout bookkeeping without touching principal.)
    pub open spec fn wf(self) -> bool {
        &&& unique_backers(self.backings@)
        &&& spec_total(self.backings@) <= self.project.principal_amount
    }

    /// The recorded backing of `who`, or `None` when `who` never funded.
    pub open spec fn balance(self, who: Seq<char>) -> Option<u128> {
        spec_balance(self.backings@, who)
    }
}

/// What an operation reports back on success.  Variants that change no
/// state are the deliberate "retry later" acknowledgments.
#[derive(Clone, Copy, Debug, PartialEq, Eq, Structural)]
pub enum ProjectResponse {
    /// Admin slot replaced.
    AdminUpdated,
    /// The caller's backing and the principal both grew by `amount`.
    Funded { amount: u128 },
    /// The caller's full backing of `amount` left the ledger.
    PrincipalWithdrawn { amount: u128 },
    /// No-op: funding target met but accrued yield still under target, so
    /// principal stays in to protect the backers' expected yield.
    PrincipalLocked,
    /// Status transition evaluated (admin override and/or automatic rule).
    StatusChanged,
    /// The creator withdrew the full accrued yield of `amount`.
    AllYieldWithdrawn { amount: u128 },
    /// No-op: the project is not in a state where the creator may take yield.
    YieldOffTrack,
    /// No-op: accrued yield has not exceeded the target, so backers wait.
    YieldNotReady,
    /// The backer's pro-rata `amount` of the accrued yield was paid out of
    /// their recorded balance.
    BackerYieldWithdrawn { amount: u128 },
}

/// The designated funding denomination of every project.
pub open spec fn fund_denom() -> Seq<char> {
    "uusd"@
}

/// What `fund_project` returns, as a function of the state it starts from
/// and the funds attached to the message.
pub open spec fn spec_fund_outcome(pre: ProjectState, funds: Seq<Coin>) -> Result<
    ProjectResponse,
    ContractError,
> {
    if pre.project.project_status == ProjectStatus::ProjectClosedFail
        || pre.project.project_status == ProjectStatus::ProjectClosedSuccess {
        Err(ContractError::UnableToFundProject)
    } else if spec_denom_amount(funds, fund_denom()) < MIN_DEPOSIT {
        Err(ContractError::DepositMinimumError)
    } else {
        Ok(ProjectResponse::Funded { amount: spec_denom_amount(funds, fund_denom()) })
    }
}

/// How `fund_project` moves the state: on success the caller's backing and
/// the principal both grow by exactly the funded amount and nothing else
/// moves; on failure nothing moves at all.
pub open spec fn fund_rel(
    pre: ProjectState,
    post: ProjectState,
    sender: Seq<char>,
    funds: Seq<Coin>,
) -> bool {
    if spec_fund_outcome(pre, funds) is Ok {
        let amount = spec_denom_amount(funds, fund_denom());
        &&& post.project.same_immutable_fields(pre.project)
        &&& post.project.project_status == pre.project.project_status
        &&& post.project.principal_amount == pre.project.principal_amount + amount
        &&& post.balance(sender) == Some(
            (spec_balance_or_zero(pre.backings@, sender) + amount) as u128,
        )
        &&& forall|w: Seq<char>| w != sender ==> post.balance(w) == pre.balance(w)
        &&& post.admin == pre.admin
    } else {
        post == pre
    }
}

/// Builds the initial state of a freshly instantiated project: the sender
/// (the factory) becomes admin, the supplied record is stored whole, and no
/// backings exist yet.
pub fn instantiate(info: &MessageInfo, msg: InstantiateMsg) -> (r: ProjectState)
    ensures
        r.wf(),
        r.admin is Some && r.admin->0@ == info.sender@,
        r.project == msg.project,
        r.backings@.len() == 0,
{
    ProjectState { admin: Some(info.sender.clone()), project: msg.project, backings: Vec::new() }
}

/// Credits the funds attached to the message to the caller's backing and to
/// the project's principal, both by exactly the amount sent in the funding
/// denomination.  Terminal projects take no funding, and deposits under the
/// floor are rejected whole.
pub fn fund_project(state: &mut ProjectState, info: &MessageInfo) -> (r: Result<
    ProjectResponse,
    ContractError,
>)
    requires
        old(state).wf(),
        old(state).project.principal_amount + spec_denom_amount(info.funds@, fund_denom())
            <= u128::MAX,
    ensures
        final(state).wf(),
        r == spec_fund_outcome(*old(state), info.funds@),
        fund_rel(*old(state), *final(state), info.sender@, info.funds@),
{
    let status = state.project.project_status;
    if status == ProjectStatus::ProjectClosedFail || status == ProjectStatus::ProjectClosedSuccess
    {
        return Err(ContractError::UnableToFundProject);
    }
    let required_denom = String::from_str("uusd");
    let deposit_amount = denom_amount(&info.funds, &required_denom);
    if deposit_amount < MIN_DEPOSIT {
        return Err(ContractError::DepositMinimumError);
    }
    let current: u128 = match balance_of(&state.backings, &info.sender) {
        Some(v) => v,
        None => 0,
    };
    proof {
        lemma_total_nonneg(state.backings@);
        if spec_balance(state.backings@, info.sender@) is Some {
            lemma_balance_le_total(state.backings@, info.sender@);
        }
    }
    set_balance(&mut state.backings, &info.sender, current + deposit_amount);
    state.project.principal_amount = state.project.principal_amount + deposit_amount;
    Ok(ProjectResponse::Funded { amount: deposit_amount })
}

/// What `withdraw_principal` returns, as a function of the starting state,
/// the block time, and the caller.
pub open spec fn spec_withdraw_principal_outcome(
    pre: ProjectState,
    now: u64,
    sender: Seq<char>,
) -> Result<ProjectResponse, ContractError> {
    let p = pre.project.principal_amount;
    let d = spec_days(pre.project.creation_date, now);
    match spec_balance(pre.backings@, sender) {
        None => Err(ContractError::NoBackingFound),
        Some(b) => if !yield_computable(p, d) {
            Err(ContractError::UnableToAcquireYield)
        } else if pre.project.project_status == ProjectStatus::Delivery && spec_accrued(p, d)
            < pre.project.target_yield_amount {
            Ok(ProjectResponse::PrincipalLocked)
        } else {
            Ok(ProjectResponse::PrincipalWithdrawn { amount: b })
        },
    }
}

/// How `withdraw_principal` moves the state: a full withdrawal zeroes the
/// caller's backing and decrements principal by the same amount; everything
/// else, including every refusal, leaves the state untouched.
pub open spec fn withdraw_principal_rel(
    pre: ProjectState,
    post: ProjectState,
    now: u64,
    sender: Seq<char>,
) -> bool {
    match spec_withdraw_principal_outcome(pre, now, sender) {
        Ok(ProjectResponse::PrincipalWithdrawn { amount }) => {
            &&& post.project.same_immutable_fields(pre.project)
            &&& post.project.project_status == pre.project.project_status
            &&& post.project.principal_amount == pre.project.principal_amount - amount
            &&& post.balance(sender) == Some(0u128)
            &&& forall|w: Seq<char>| w != sender ==> post.balance(w) == pre.balance(w)
            &&& post.admin == pre.admin
        },
        _ => post == pre,
    }
}

/// Pays the caller's full recorded backing back out of the principal.  The
/// withdrawal is refused as a no-op — not an error — while the project is
/// in `Delivery` with accrued yield still under target, to protect backers
/// expecting yield before principal exits.
pub fn withdraw_principal(state: &mut ProjectState, env: &Env, info: &MessageInfo) -> (r: Result<
    ProjectResponse,
    ContractError,
>)
    requires
        old(state).wf(),
        env.block_time >= old(state).project.creation_date,
    ensures
        final(state).wf(),
        r == spec_withdraw_principal_outcome(*old(state), env.block_time, info.sender@),
        withdraw_principal_rel(*old(state), *final(state), env.block_time, info.sender@),
{
    let withdraw_amount: u128 = match balance_of(&state.backings, &info.sender) {
        Some(v) => v,
        None => {
            return Err(ContractError::NoBackingFound);
        },
    };
    let yield_amount = match get_yield_amount(state, env) {
        Ok(y) => y,
        Err(_) => {
            return Err(ContractError::UnableToAcquireYield);
        },
    };
    if state.project.project_status == ProjectStatus::Delivery && yield_amount
        < state.project.target_yield_amount {
        return Ok(ProjectResponse::PrincipalLocked);
    }
    proof {
        lemma_balance_le_total(state.backings@, info.sender@);
        lemma_total_nonneg(state.backings@);
    }
    set_balance(&mut state.backings, &info.sender, 0);
    state.project.principal_amount = state.project.principal_amount - withdraw_amount;
    Ok(ProjectResponse::PrincipalWithdrawn { amount: withdraw_amount })
}

/// The accrued yield on the project's current principal since creation, or
/// `UnableToAcquireYield` when the computation cannot be carried out.
pub fn get_yield_amount(state: &ProjectState, env: &Env) -> (r: Result<u128, ContractError>)
    requires
        env.block_time >= state.project.creation_date,
    ensures
        r is Ok <==> yield_computable(
            state.project.principal_amount,
            spec_days(state.project.creation_date, env.block_time),
        ),
        r matches Ok(y) ==> y == spec_accrued(
            state.project.principal_amount,
            spec_days(state.project.creation_date, env.block_time),
        ),
        r matches Err(e) ==> e == ContractError::UnableToAcquireYield,
{
    let number_of_days = (env.block_time - state.project.creation_date) / SECONDS_PER_DAY;
    match compute_yield(state.project.principal_amount, number_of_days) {
        Some(y) => Ok(y),
        None => Err(ContractError::UnableToAcquireYield),
    }
}

/// The status `change_status` leaves behind: the admin's override is
/// applied first, then the automatic deadline rule evaluates on the
/// possibly-overridden status, so an admin pre-empts the rule only by
/// setting a terminal status directly.
pub open spec fn spec_status_after(
    pre: ProjectState,
    now: u64,
    sender: Seq<char>,
    requested: Option<ProjectStatus>,
) -> ProjectStatus {
    let overridden = if pre.admin is Some && pre.admin->0@ == sender && requested is Some {
        requested->0
    } else {
        pre.project.project_status
    };
    if now >= pre.project.fund_deadline && overridden == ProjectStatus::FundingInProgress {
        if pre.project.principal_amount >= pre.project.target_principal_amount {
            ProjectStatus::Delivery
        } else {
            ProjectStatus::ProjectClosedFail
        }
    } else {
        overridden
    }
}

/// How `change_status` moves the state: only the status field, and exactly
/// to `spec_status_after`.
pub open spec fn change_status_rel(
    pre: ProjectState,
    post: ProjectState,
    now: u64,
    sender: Seq<char>,
    requested: Option<ProjectStatus>,
) -> bool {
    &&& post.project.same_immutable_fields(pre.project)
    &&& post.project.project_status == spec_status_after(pre, now, sender, requested)
    &&& post.project.principal_amount == pre.project.principal_amount
    &&& post.backings == pre.backings
    &&& post.admin == pre.admin
}

/// Applies the admin's status override, if the caller is the admin and
/// asked for one, then the automatic deadline rule: a project still funding
/// past its deadline moves to `Delivery` when principal reached its target
/// — boundary equality counts as reached — and to `ProjectClosedFail`
/// otherwise.  A non-admin's override request is ignored, not an error.
pub fn change_status(
    state: &mut ProjectState,
    env: &Env,
    info: &MessageInfo,
    project_status: Option<ProjectStatus>,
) -> (r: Result<ProjectResponse, ContractError>)
    requires
        old(state).wf(),
    ensures
        final(state).wf(),
        r == Ok::<ProjectResponse, ContractError>(ProjectResponse::StatusChanged),
        change_status_rel(*old(state), *final(state), env.block_time, info.sender@, project_status),
{
    if is_admin(&state.admin, &info.sender) {
        match project_status {
            Some(status) => {
                state.project.project_status = status;
            },
            None => {},
        }
    }
    if env.block_time >= state.project.fund_deadline && state.project.project_status
        == ProjectStatus::FundingInProgress {
        if state.project.principal_amount >= state.project.target_principal_amount {
            state.project.project_status = ProjectStatus::Delivery;
        } else {
            state.project.project_status = ProjectStatus::ProjectClosedFail;
        }
    }
    Ok(ProjectResponse::StatusChanged)
}

/// What `withdraw_yield` returns, as a function of the starting state, the
/// block time, and the caller.
///
/// The creator may take the full accrued yield only once the project closed
/// successfully; asking with the yield target already reached but the
/// project not yet closed is the explicit error, and asking any earlier is
/// the "off track" no-op.  A backer is paid a pro-rata share of the accrued
/// yield out of their recorded balance, and is refused as a no-op until the
/// accrued yield exceeds the target, unless the project already failed.
pub open spec fn spec_withdraw_yield_outcome(
    pre: ProjectState,
    now: u64,
    sender: Seq<char>,
) -> Result<ProjectResponse, ContractError> {
    let p = pre.project.principal_amount;
    let d = spec_days(pre.project.creation_date, now);
    let status = pre.project.project_status;
    if !yield_computable(p, d) {
        Err(ContractError::UnableToAcquireYield)
    } else {
        let y = spec_accrued(p, d) as u128;
        if sender == pre.project.creator@ {
            if status == ProjectStatus::ProjectClosedSuccess {
                Ok(ProjectResponse::AllYieldWithdrawn { amount: y })
            } else if status == ProjectStatus::ProjectClosedFail {
                Ok(ProjectResponse::YieldOffTrack)
            } else if y >= pre.project.target_yield_amount {
                Err(ContractError::CreatorUnableToWithdrawYield)
            } else {
                Ok(ProjectResponse::YieldOffTrack)
            }
        } else {
            match spec_balance(pre.backings@, sender) {
                None => Err(ContractError::NoBackingFound),
                Some(b) => if y <= pre.project.target_yield_amount && status
                    != ProjectStatus::ProjectClosedFail {
                    Ok(ProjectResponse::YieldNotReady)
                } else {
                    Ok(
                        ProjectResponse::BackerYieldWithdrawn {
                            amount: spec_pro_rata(b, p, y) as u128,
                        },
                    )
                },
            }
        }
    }
}

/// How `withdraw_yield` moves the state: a backer payout decrements only
/// that backer's recorded balance — principal stays, as the payout is
/// bookkeeping against a transfer the money market will make — and every
/// other outcome leaves the state untouched.
pub open spec fn withdraw_yield_rel(
    pre: ProjectState,
    post: ProjectState,
    now: u64,
    sender: Seq<char>,
) -> bool {
    match spec_withdraw_yield_outcome(pre, now, sender) {
        Ok(ProjectResponse::BackerYieldWithdrawn { amount }) => {
            &&& post.project == pre.project
            &&& post.balance(sender) == Some(
                (spec_balance_or_zero(pre.backings@, sender) - amount) as u128,
            )
            &&& forall|w: Seq<char>| w != sender ==> post.balance(w) == pre.balance(w)
            &&& post.admin == pre.admin
        },
        _ => post == pre,
    }
}

/// The machine-width bounds a backer payout needs: once a payout is due,
/// the principal must fit the divisor word and the computed share must not
/// exceed the backer's recorded balance.  A host checks this before asking
/// for a backer withdrawal; on amounts within the chain's supply it always
/// holds.
pub open spec fn withdraw_yield_safe(pre: ProjectState, now: u64, sender: Seq<char>) -> bool {
    let p = pre.project.principal_amount;
    let d = spec_days(pre.project.creation_date, now);
    let y = spec_accrued(p, d) as u128;
    sender == pre.project.creator@ || !yield_computable(p, d) || match spec_balance(
        pre.backings@,
        sender,
    ) {
        None => true,
        Some(b) => (y <= pre.project.target_yield_amount && pre.project.project_status
            != ProjectStatus::ProjectClosedFail) || (p <= u64::MAX && spec_pro_rata(b, p, y)
            <= b),
    }
}

/// Pays out accrued yield, creator and backer each under their own rule.
pub fn withdraw_yield(state: &mut ProjectState, env: &Env, info: &MessageInfo) -> (r: Result<
    ProjectResponse,
    ContractError,
>)
    requires
        old(state).wf(),
        env.block_time >= old(state).project.creation_date,
        withdraw_yield_safe(*old(state), env.block_time, info.sender@),
    ensures
        final(state).wf(),
        r == spec_withdraw_yield_outcome(*old(state), env.block_time, info.sender@),
        withdraw_yield_rel(*old(state), *final(state), env.block_time, info.sender@),
{
    let yield_amount = match get_yield_amount(state, env) {
        Ok(y) => y,
        Err(_) => {
            return Err(ContractError::UnableToAcquireYield);
        },
    };
    proof {
        lemma_accrued_nonneg(
            state.project.principal_amount,
            spec_days(state.project.creation_date, env.block_time),
        );
    }
    if info.sender == state.project.creator {
        if state.project.project_status == ProjectStatus::ProjectClosedSuccess {
            Ok(ProjectResponse::AllYieldWithdrawn { amount: yield_amount })
        } else if state.project.project_status == ProjectStatus::ProjectClosedFail {
            Ok(ProjectResponse::YieldOffTrack)
        } else if yield_amount >= state.project.target_yield_amount {
            Err(ContractError::CreatorUnableToWithdrawYield)
        } else {
            Ok(ProjectResponse::YieldOffTrack)
        }
    } else {
        let backer_principal: u128 = match balance_of(&state.backings, &info.sender) {
            Some(v) => v,
            None => {
                return Err(ContractError::NoBackingFound);
            },
        };
        if yield_amount <= state.project.target_yield_amount && state.project.project_status
            != ProjectStatus::ProjectClosedFail {
            return Ok(ProjectResponse::YieldNotReady);
        }
        proof {
            lemma_balance_le_total(state.backings@, info.sender@);
            lemma_total_nonneg(state.backings@);
        }
        let backer_yield = pro_rata_share(
            backer_principal,
            state.project.principal_amount,
            yield_amount,
        );
        set_balance(&mut state.backings, &info.sender, backer_principal - backer_yield);
        Ok(ProjectResponse::BackerYieldWithdrawn { amount: backer_yield })
    }
}

/// What `update_admin` returns: only the current admin may hand the slot
/// over (or clear it).
pub open spec fn spec_update_admin_outcome(pre: ProjectState, sender: Seq<char>) -> Result<
    ProjectResponse,
    ContractError,
> {
    if pre.admin is Some && pre.admin->0@ == sender {
        Ok(ProjectResponse::AdminUpdated)
    } else {
        Err(ContractError::Unauthorized)
    }
}

/// How `update_admin` moves the state: only the admin slot, and only on
/// success.
pub open spec fn update_admin_rel(
    pre: ProjectState,
    post: ProjectState,
    sender: Seq<char>,
    new_admin: Option<String>,
) -> bool {
    if spec_update_admin_outcome(pre, sender) is Ok {
        &&& post.project == pre.project
        &&& post.backings == pre.backings
        &&& post.admin == new_admin
    } else {
        post == pre
    }
}

/// Replaces the admin slot with `new_admin` — possibly empty, which
/// renounces administration — when the caller is the current admin.
pub fn update_admin(state: &mut ProjectState, info: &MessageInfo, new_admin: Option<String>) -> (r:
    Result<ProjectResponse, ContractError>)
    requires
        old(state).wf(),
    ensures
        final(state).wf(),
        r == spec_update_admin_outcome(*old(state), info.sender@),
        update_admin_rel(*old(state), *final(state), info.sender@, new_admin),
{
    if is_admin(&state.admin, &info.sender) {
        state.admin = new_admin;
        Ok(ProjectResponse::AdminUpdated)
    } else {
        Err(ContractError::Unauthorized)
    }
}

/// What executing `msg` requires of the caller beyond a well-formed state:
/// the machine-width bounds of the operation it dispatches to.
pub open spec fn project_execute_pre(
    pre: ProjectState,
    now: u64,
    sender: Seq<char>,
    funds: Seq<Coin>,
    msg: ExecuteMsg,
) -> bool {
    match msg {
        ExecuteMsg::UpdateAdmin { .. } => true,
        ExecuteMsg::FundProject {} => pre.project.principal_amount + spec_denom_amount(
            funds,
            fund_denom(),
        ) <= u128::MAX,
        ExecuteMsg::WithdrawPrincipal {} => now >= pre.project.creation_date,
        ExecuteMsg::ChangeProjectStatus { .. } => true,
        ExecuteMsg::WithdrawYield {} => now >= pre.project.creation_date && withdraw_yield_safe(
            pre,
            now,
            sender,
        ),
    }
}

/// Dispatches one execute request to the operation it names.
pub fn execute(state: &mut ProjectState, env: &Env, info: &MessageInfo, msg: ExecuteMsg) -> (r:
    Result<ProjectResponse, ContractError>)
    requires
        old(state).wf(),
        project_execute_pre(*old(state), env.block_time, info.sender@, info.funds@, msg),
    ensures
        final(state).wf(),
        match msg {
            ExecuteMsg::UpdateAdmin { new_admin } => r == spec_update_admin_outcome(
                *old(state),
                info.sender@,
            ) && update_admin_rel(*old(state), *final(state), info.sender@, new_admin),
            ExecuteMsg::FundProject {} => r == spec_fund_outcome(*old(state), info.funds@)
                && fund_rel(*old(state), *final(state), info.sender@, info.funds@),
            ExecuteMsg::WithdrawPrincipal {} => r == spec_withdraw_principal_outcome(
                *old(state),
                env.block_time,
                info.sender@,
            ) && withdraw_principal_rel(*old(state), *final(state), env.block_time, info.sender@),
            ExecuteMsg::ChangeProjectStatus { project_status } => r == Ok::<
                ProjectResponse,
                ContractError,
            >(ProjectResponse::StatusChanged) && change_status_rel(
                *old(state),
                *final(state),
                env.block_time,
                info.sender@,
                project_status,
            ),
            ExecuteMsg::WithdrawYield {} => r == spec_withdraw_yield_outcome(
                *old(state),
                env.block_time,
                info.sender@,
            ) && withdraw_yield_rel(*old(state), *final(state), env.block_time, info.sender@),
        },
{
    match msg {
        ExecuteMsg::UpdateAdmin { new_admin } => update_admin(state, info, new_admin),
        ExecuteMsg::FundProject {} => fund_project(state, info),
        ExecuteMsg::WithdrawPrincipal {} => withdraw_principal(state, env, info),
        ExecuteMsg::ChangeProjectStatus { project_status } => change_status(
            state,
            env,
            info,
            project_status,
        ),
        ExecuteMsg::WithdrawYield {} => withdraw_yield(state, env, info),
    }
}

/// What a query answers with.
#[derive(Clone, Debug)]
pub enum QueryResponse {
    Status(ProjectStatusResponse),
    Balance(UserBalanceResponse),
}

/// What `query` returns, as a function of the state and the question alone:
/// repeating a query against an unchanged state repeats its answer.
pub open spec fn spec_query_outcome(pre: ProjectState, msg: QueryMsg) -> Result<
    QueryResponse,
    ContractError,
> {
    match msg {
        QueryMsg::GetProjectStatus {} => Ok(
            QueryResponse::Status(ProjectStatusResponse { project_status: pre.project }),
        ),
        QueryMsg::GetUserBalance { user } => match user {
            Some(u) => Ok(
                QueryResponse::Balance(
                    UserBalanceResponse {
                        user_balance: spec_balance_or_zero(pre.backings@, u@),
                    },
                ),
            ),
            None => Err(ContractError::InvalidAddress),
        },
    }
}

/// The full project record, for `GetProjectStatus`.
pub fn query_project_status(state: &ProjectState) -> (r: ProjectStatusResponse)
    ensures
        r.project_status == state.project,
{
    ProjectStatusResponse { project_status: state.project.clone() }
}

/// The recorded backing of `user`, for `GetUserBalance`: zero — not an
/// error — when the user never funded; an absent user identity is rejected.
pub fn query_user_balance(state: &ProjectState, user: Option<String>) -> (r: Result<
    UserBalanceResponse,
    ContractError,
>)
    ensures
        match user {
            Some(u) => r == Ok::<UserBalanceResponse, ContractError>(
                UserBalanceResponse { user_balance: spec_balance_or_zero(state.backings@, u@) },
            ),
            None => r == Err::<UserBalanceResponse, ContractError>(ContractError::InvalidAddress),
        },
{
    match user {
        Some(u) => {
            let balance: u128 = match balance_of(&state.backings, &u) {
                Some(v) => v,
                None => 0,
            };
            Ok(UserBalanceResponse { user_balance: balance })
        },
        None => Err(ContractError::InvalidAddress),
    }
}

/// Answers one read-only question.  The answer is a function of the state
/// and the question alone, so identical queries give identical results
/// absent an intervening mutation.
pub fn query(state: &ProjectState, msg: QueryMsg) -> (r: Result<QueryResponse, ContractError>)
    ensures
        r == spec_query_outcome(*state, msg),
{
    match msg {
        QueryMsg::GetProjectStatus {} => Ok(QueryResponse::Status(query_project_status(state))),
        QueryMsg::GetUserBalance { user } => match query_user_balance(state, user) {
            Ok(b) => Ok(QueryResponse::Balance(b)),
            Err(e) => Err(e),
        },
    }
}

/// A deposit below the floor is rejected with `DepositMinimumError` and
/// mutates nothing, whatever else the message carried, as long as the
/// project is still open to funding.
pub proof fn lemma_fund_below_minimum_rejected(
    pre: ProjectState,
    post: ProjectState,
    sender: Seq<char>,
    funds: Seq<Coin>,
)
    requires
        pre.project.project_status != ProjectStatus::ProjectClosedFail,
        pre.project.project_status != ProjectStatus::ProjectClosedSuccess,
        spec_denom_amount(funds, fund_denom()) < MIN_DEPOSIT,
        fund_rel(pre, post, sender, funds),
    ensures
        spec_fund_outcome(pre, funds) == Err::<ProjectResponse, ContractError>(
            ContractError::DepositMinimumError,
        ),
        post == pre,
{
}

/// Funding a project in a terminal state fails with `UnableToFundProject`
/// and mutates nothing, regardless of the amount sent.
pub proof fn lemma_fund_closed_always_fails(
    pre: ProjectState,
    post: ProjectState,
    sender: Seq<char>,
    funds: Seq<Coin>,
)
    requires
        pre.project.project_status == ProjectStatus::ProjectClosedFail
            || pre.project.project_status == ProjectStatus::ProjectClosedSuccess,
        fund_rel(pre, post, sender, funds),
    ensures
        spec_fund_outcome(pre, funds) == Err::<ProjectResponse, ContractError>(
            ContractError::UnableToFundProject,
        ),
        post == pre,
{
}

/// The automatic transition rule: once the funding deadline has passed, a
/// project still funding moves to `Delivery` exactly when the principal
/// reached its target — boundary equality included — and to
/// `ProjectClosedFail` otherwise, whoever triggered the evaluation.
pub proof fn lemma_automatic_status_rule(
    pre: ProjectState,
    now: u64,
    sender: Seq<char>,
    requested: Option<ProjectStatus>,
)
    requires
        now >= pre.project.fund_deadline,
        pre.project.project_status == ProjectStatus::FundingInProgress,
        // the admin did not override the status away before the rule ran
        !(pre.admin is Some && pre.admin->0@ == sender && requested is Some),
    ensures
        spec_status_after(pre, now, sender, requested) == if pre.project.principal_amount
            >= pre.project.target_principal_amount {
            ProjectStatus::Delivery
        } else {
            ProjectStatus::ProjectClosedFail
        },
{
}

/// Funding and then fully withdrawing the principal is an identity on the
/// ledger when no yield gating applies: a backer starting from no (or zero)
/// recorded backing who funds `a` and then withdraws their principal leaves
/// the running principal where it started, their backing zeroed, and every
/// other backing untouched.
pub proof fn lemma_fund_withdraw_round_trip(
    s0: ProjectState,
    s1: ProjectState,
    s2: ProjectState,
    sender: Seq<char>,
    funds: Seq<Coin>,
    now: u64,
)
    requires
        s0.wf(),
        s0.balance(sender) is None || s0.balance(sender) == Some(0u128),
        spec_fund_outcome(s0, funds) is Ok,
        fund_rel(s0, s1, sender, funds),
        spec_withdraw_principal_outcome(s1, now, sender) matches Ok(
            ProjectResponse::PrincipalWithdrawn { .. },
        ),
        withdraw_principal_rel(s1, s2, now, sender),
    ensures
        s2.project.principal_amount == s0.project.principal_amount,
        s2.balance(sender) == Some(0u128),
        forall|w: Seq<char>| w != sender ==> s2.balance(w) == s0.balance(w),
        s2.project.same_immutable_fields(s0.project),
{
    let amount = spec_denom_amount(funds, fund_denom());
    assert(s1.balance(sender) == Some(amount));
    assert(s2.project.principal_amount == s1.project.principal_amount - amount);
}

/// Two backers whose recorded backings exhaust the principal share the
/// accrued yield pro rata, and their shares reassemble the whole within one
/// unit of rounding.
pub proof fn lemma_backer_shares_exhaust_yield(
    pre: ProjectState,
    now: u64,
    w1: Seq<char>,
    w2: Seq<char>,
)
    requires
        pre.wf(),
        w1 != w2,
        pre.balance(w1) is Some,
        pre.balance(w2) is Some,
        pre.balance(w1)->0 + pre.balance(w2)->0 == pre.project.principal_amount,
        pre.project.principal_amount > 0,
        yield_computable(
            pre.project.principal_amount,
            spec_days(pre.project.creation_date, now),
        ),
        w1 != pre.project.creator@,
        w2 != pre.project.creator@,
        spec_withdraw_yield_outcome(pre, now, w1) matches Ok(
            ProjectResponse::BackerYieldWithdrawn { .. },
        ),
        spec_withdraw_yield_outcome(pre, now, w2) matches Ok(
            ProjectResponse::BackerYieldWithdrawn { .. },
        ),
    ensures
        ({
            let y = spec_accrued(
                pre.project.principal_amount,
                spec_days(pre.project.creation_date, now),
            ) as u128;
            let share1 = spec_pro_rata(
                pre.balance(w1)->0,
                pre.project.principal_amount,
                y,
            );
            let share2 = spec_pro_rata(
                pre.balance(w2)->0,
                pre.project.principal_amount,
                y,
            );
            &&& spec_withdraw_yield_outcome(pre, now, w1) == Ok::<
                ProjectResponse,
                ContractError,
            >(ProjectResponse::BackerYieldWithdrawn { amount: share1 as u128 })
            &&& spec_withdraw_yield_outcome(pre, now, w2) == Ok::<
                ProjectResponse,
                ContractError,
            >(ProjectResponse::BackerYieldWithdrawn { amount: share2 as u128 })
            &&& share1 + share2 <= y
            &&& y <= share1 + share2 + 1
        }),
{
    let p = pre.project.principal_amount;
    let d = spec_days(pre.project.creation_date, now);
    let y = spec_accrued(p, d) as u128;
    crate::yield_calc::lemma_pro_rata_shares_sum(
        pre.balance(w1)->0,
        pre.balance(w2)->0,
        p,
        y,
    );
    lemma_pro_rata_le_amount(pre.balance(w1)->0, p, y);
    lemma_pro_rata_le_amount(pre.balance(w2)->0, p, y);
}

} // verus!
