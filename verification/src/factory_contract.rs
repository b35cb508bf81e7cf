//! The factory's operations: spawning project ledgers through the
//! asynchronous creation protocol and answering registry lookups.
//!
//! A creation runs in two invocations.  `create_project` records the name
//! as the pending creation and hands the host a child-instantiation request
//! carrying the fully formed initial project record; the registry is not
//! yet touched.  When the host has instantiated the child it calls `reply`
//! with an acknowledgment naming the child's address, and only then is the
//! name durably bound.  One creation may be in flight at a time: a second
//! `create_project` while one is pending is rejected rather than allowed to
//! overwrite the pending marker.

use vstd::prelude::*;
use vstd::utf8::{decode_utf8, valid_utf8};
use crate::ack::{
    is_ack_encoding, lemma_ack_bytes_injective, parse_ack, spec_ack_bytes, string_from_utf8,
    ACK_MAX_ADDRESS_LEN,
};
use crate::error::ContractError;
use crate::factory::{
    Config, ExecuteMsg, InstantiateMsg, ProjectContractAddressResponse, ProjectInstantiation,
    QueryMsg,
};
use crate::host::{is_admin, Env, MessageInfo, Reply};
use crate::project::{Project, ProjectStatus};
use crate::registry::{address_of, bind_address, spec_address, unique_names, RegistryEntry};

verus! {

/// The id the factory stamps on its child-instantiation request, and the
/// only reply id it accepts.
pub const CREATE_PROJECT_REPLY_ID: u64 = 1;

/// One factory instance's full persisted state: the admin slot, the static
/// configuration, the bound registry, and the pending-creation marker.
#[derive(Debug)]
pub struct FactoryState {
    pub admin: Option<String>,
    pub config: Config,
    pub projects: Vec<RegistryEntry>,
    pub tmp_project_name: Option<String>,
}

impl FactoryState {
    /// Well-formedness: each name is bound at most once.
    pub open spec fn wf(self) -> bool {
        unique_names(self.projects@)
    }

    /// The address bound under `name`, or `None` when the name is unbound.
    pub open spec fn bound_address(self, name: Seq<char>) -> Option<Seq<char>> {
        spec_address(self.projects@, name)
    }
}

/// What a factory operation reports back on success.
#[derive(Clone, Debug)]
pub enum FactoryResponse {
    /// Admin slot replaced.
    AdminUpdated,
    /// The child-instantiation request the host must now carry out; the
    /// registry stays untouched until the host's acknowledgment arrives.
    ProjectCreationStarted { request: ProjectInstantiation },
    /// The acknowledgment resolved the pending creation: `name` is now
    /// durably bound to `address`.
    ProjectBound { name: String, address: String },
}

/// Builds the state of a freshly instantiated factory: the sender becomes
/// admin, and both collaborator addresses are required — an absent one
/// rejects the whole instantiation with `InvalidAddress`.
pub fn instantiate(info: &MessageInfo, msg: InstantiateMsg) -> (r: Result<
    FactoryState,
    ContractError,
>)
    ensures
        r is Ok <==> (msg.anchor_money_market_address is Some && msg.a_ust_address is Some),
        r matches Err(e) ==> e == ContractError::InvalidAddress,
        r matches Ok(state) ==> {
            &&& state.wf()
            &&& state.admin is Some && state.admin->0@ == info.sender@
            &&& state.config.project_code_id == msg.project_code_id
            &&& state.config.anchor_money_market_address == msg.anchor_money_market_address->0
            &&& state.config.a_ust_address == msg.a_ust_address->0
            &&& state.projects@.len() == 0
            &&& state.tmp_project_name is None
        },
{
    let anchor_money_market_address: String = match msg.anchor_money_market_address {
        Some(x) => x,
        None => {
            return Err(ContractError::InvalidAddress);
        },
    };
    let a_ust_address: String = match msg.a_ust_address {
        Some(x) => x,
        None => {
            return Err(ContractError::InvalidAddress);
        },
    };
    Ok(
        FactoryState {
            admin: Some(info.sender.clone()),
            config: Config {
                anchor_money_market_address,
                a_ust_address,
                project_code_id: msg.project_code_id,
            },
            projects: Vec::new(),
            tmp_project_name: None,
        },
    )
}

/// The initial record a new child ledger starts from: named as asked,
/// created by the caller at the current block time, funding in progress
/// with nothing funded yet.
pub open spec fn spec_initial_project(
    now: u64,
    sender: String,
    name: String,
    target_principal_amount: u128,
    target_yield_amount: u128,
    fund_deadline: u64,
) -> Project {
    Project {
        name,
        creator: sender,
        creation_date: now,
        project_status: ProjectStatus::FundingInProgress,
        target_principal_amount,
        target_yield_amount,
        principal_amount: 0,
        fund_deadline,
    }
}

/// Whether `create_project` accepts: the name must be unbound and no other
/// creation may be in flight.
pub open spec fn spec_create_project_outcome(pre: FactoryState, name: Seq<char>) -> Result<
    (),
    ContractError,
> {
    if pre.bound_address(name) is Some {
        Err(ContractError::DuplicateProject)
    } else if pre.tmp_project_name is Some {
        Err(ContractError::UnableToCreateNewProject)
    } else {
        Ok(())
    }
}

/// Starts the creation of a named project: records the name as pending and
/// returns the child-instantiation request for the host to carry out, with
/// the caller as the new project's creator and this factory as the child's
/// admin.  The registry itself is not yet updated.
pub fn create_project(
    state: &mut FactoryState,
    env: &Env,
    info: &MessageInfo,
    name: String,
    target_principal_amount: u128,
    target_yield_amount: u128,
    fund_deadline: u64,
) -> (r: Result<FactoryResponse, ContractError>)
    requires
        old(state).wf(),
    ensures
        final(state).wf(),
        r is Ok <==> spec_create_project_outcome(*old(state), name@) is Ok,
        r matches Err(e) ==> Err::<(), ContractError>(e) == spec_create_project_outcome(
            *old(state),
            name@,
        ) && *final(state) == *old(state),
        r is Ok ==> {
            &&& r->Ok_0 == FactoryResponse::ProjectCreationStarted {
                request: ProjectInstantiation {
                    id: CREATE_PROJECT_REPLY_ID,
                    code_id: old(state).config.project_code_id,
                    admin: env.contract_address,
                    project: spec_initial_project(
                        env.block_time,
                        info.sender,
                        name,
                        target_principal_amount,
                        target_yield_amount,
                        fund_deadline,
                    ),
                },
            }
            &&& final(state).tmp_project_name == Some(name)
            &&& final(state).projects == old(state).projects
            &&& final(state).admin == old(state).admin
            &&& final(state).config == old(state).config
        },
{
    match address_of(&state.projects, &name) {
        Some(_) => {
            return Err(ContractError::DuplicateProject);
        },
        None => {},
    }
    match &state.tmp_project_name {
        Some(_) => {
            return Err(ContractError::UnableToCreateNewProject);
        },
        None => {},
    }
    let code_id = state.config.project_code_id;
    state.tmp_project_name = Some(name.clone());
    Ok(
        FactoryResponse::ProjectCreationStarted {
            request: ProjectInstantiation {
                id: CREATE_PROJECT_REPLY_ID,
                code_id,
                admin: env.contract_address.clone(),
                project: Project {
                    name,
                    creator: info.sender.clone(),
                    creation_date: env.block_time,
                    project_status: ProjectStatus::FundingInProgress,
                    target_principal_amount,
                    target_yield_amount,
                    principal_amount: 0,
                    fund_deadline,
                },
            },
        },
    )
}

/// The address an acknowledgment payload resolves to: the framed payload
/// decoded as text, or `None` when the framing or the text is malformed.
pub open spec fn spec_ack_address(data: Seq<u8>) -> Option<Seq<char>> {
    if is_ack_encoding(data) {
        let a = choose|a: Seq<u8>|
            a.len() <= ACK_MAX_ADDRESS_LEN && data == #[trigger] spec_ack_bytes(a);
        if valid_utf8(a) {
            Some(decode_utf8(a))
        } else {
            None
        }
    } else {
        None
    }
}

/// What resolving an acknowledgment yields: the pending name and the bound
/// address, or the error that rejects the acknowledgment.  A malformed or
/// absent payload, like an unknown reply id, is a creation-protocol
/// violation; an acknowledgment with nothing pending is `NoPendingProject`.
pub open spec fn spec_reply_outcome(pre: FactoryState, msg: Reply) -> Result<
    (Seq<char>, Seq<char>),
    ContractError,
> {
    if msg.id != CREATE_PROJECT_REPLY_ID {
        Err(ContractError::UnableToCreateNewProject)
    } else {
        match msg.data {
            None => Err(ContractError::UnableToCreateNewProject),
            Some(d) => match spec_ack_address(d@) {
                None => Err(ContractError::UnableToCreateNewProject),
                Some(addr) => match pre.tmp_project_name {
                    None => Err(ContractError::NoPendingProject),
                    Some(nm) => Ok((nm@, addr)),
                },
            },
        }
    }
}

/// How `reply` moves the state: on success the pending name is bound to the
/// acknowledged address — rebinding it if it was somehow already bound —
/// the pending marker is cleared, and nothing else moves; every rejection
/// is all-or-nothing and leaves the state untouched.
pub open spec fn reply_rel(pre: FactoryState, post: FactoryState, msg: Reply) -> bool {
    match spec_reply_outcome(pre, msg) {
        Ok((nm, addr)) => {
            &&& post.bound_address(nm) == Some(addr)
            &&& forall|n: Seq<char>| n != nm ==> post.bound_address(n) == pre.bound_address(n)
            &&& post.tmp_project_name is None
            &&& post.admin == pre.admin
            &&& post.config == pre.config
        },
        Err(_) => post == pre,
    }
}

/// Resolves the host's acknowledgment of a child instantiation: checks the
/// reply id, parses the acknowledged address, and binds the pending name to
/// it.  This is the registry's only writer.
pub fn reply(state: &mut FactoryState, msg: &Reply) -> (r: Result<FactoryResponse, ContractError>)
    requires
        old(state).wf(),
    ensures
        final(state).wf(),
        r is Ok <==> spec_reply_outcome(*old(state), *msg) is Ok,
        r matches Err(e) ==> Err::<(Seq<char>, Seq<char>), ContractError>(e) == spec_reply_outcome(
            *old(state),
            *msg,
        ),
        r matches Ok(resp) ==> resp matches FactoryResponse::ProjectBound { name, address }
            && spec_reply_outcome(*old(state), *msg) == Ok::<
            (Seq<char>, Seq<char>),
            ContractError,
        >((name@, address@)),
        reply_rel(*old(state), *final(state), *msg),
{
    if msg.id != CREATE_PROJECT_REPLY_ID {
        return Err(ContractError::UnableToCreateNewProject);
    }
    create_new_project(state, msg)
}

/// The body of acknowledgment resolution, shared by `reply`.
pub fn create_new_project(state: &mut FactoryState, msg: &Reply) -> (r: Result<
    FactoryResponse,
    ContractError,
>)
    requires
        old(state).wf(),
        msg.id == CREATE_PROJECT_REPLY_ID,
    ensures
        final(state).wf(),
        r is Ok <==> spec_reply_outcome(*old(state), *msg) is Ok,
        r matches Err(e) ==> Err::<(Seq<char>, Seq<char>), ContractError>(e) == spec_reply_outcome(
            *old(state),
            *msg,
        ),
        r matches Ok(resp) ==> resp matches FactoryResponse::ProjectBound { name, address }
            && spec_reply_outcome(*old(state), *msg) == Ok::<
            (Seq<char>, Seq<char>),
            ContractError,
        >((name@, address@)),
        reply_rel(*old(state), *final(state), *msg),
{
    let data: &Vec<u8> = match &msg.data {
        Some(d) => d,
        None => {
            return Err(ContractError::UnableToCreateNewProject);
        },
    };
    let payload = match parse_ack(data) {
        Some(p) => p,
        None => {
            return Err(ContractError::UnableToCreateNewProject);
        },
    };
    let ghost payload_view = payload@;
    let address = match string_from_utf8(payload) {
        Some(s) => s,
        None => {
            proof {
                let a = choose|a: Seq<u8>|
                    a.len() <= ACK_MAX_ADDRESS_LEN && data@ == #[trigger] spec_ack_bytes(a);
                lemma_ack_bytes_injective(a, payload_view);
            }
            return Err(ContractError::UnableToCreateNewProject);
        },
    };
    proof {
        let a = choose|a: Seq<u8>|
            a.len() <= ACK_MAX_ADDRESS_LEN && data@ == #[trigger] spec_ack_bytes(a);
        lemma_ack_bytes_injective(a, payload_view);
        vstd::utf8::encode_utf8_decode_utf8(address@);
    }
    let name = match &state.tmp_project_name {
        Some(n) => n.clone(),
        None => {
            return Err(ContractError::NoPendingProject);
        },
    };
    bind_address(&mut state.projects, &name, address.clone());
    state.tmp_project_name = None;
    Ok(FactoryResponse::ProjectBound { name, address })
}

/// What `update_admin` returns: only the current admin may hand the slot over.
pub open spec fn spec_factory_update_admin_outcome(pre: FactoryState, sender: Seq<char>) -> Result<
    FactoryResponse,
    ContractError,
> {
    if pre.admin is Some && pre.admin->0@ == sender {
        Ok(FactoryResponse::AdminUpdated)
    } else {
        Err(ContractError::Unauthorized)
    }
}

/// Replaces the factory's admin slot with `new_admin` when the caller is
/// the current admin.
pub fn update_admin(state: &mut FactoryState, info: &MessageInfo, new_admin: Option<String>) -> (r:
    Result<FactoryResponse, ContractError>)
    requires
        old(state).wf(),
    ensures
        final(state).wf(),
        (r is Ok) == (spec_factory_update_admin_outcome(*old(state), info.sender@) is Ok),
        r matches Err(e) ==> e == ContractError::Unauthorized && *final(state) == *old(state),
        r is Ok ==> {
            &&& r->Ok_0 == FactoryResponse::AdminUpdated
            &&& final(state).admin == new_admin
            &&& final(state).config == old(state).config
            &&& final(state).projects == old(state).projects
            &&& final(state).tmp_project_name == old(state).tmp_project_name
        },
{
    if is_admin(&state.admin, &info.sender) {
        state.admin = new_admin;
        Ok(FactoryResponse::AdminUpdated)
    } else {
        Err(ContractError::Unauthorized)
    }
}

/// Dispatches one execute request to the operation it names.
pub fn execute(state: &mut FactoryState, env: &Env, info: &MessageInfo, msg: ExecuteMsg) -> (r:
    Result<FactoryResponse, ContractError>)
    requires
        old(state).wf(),
    ensures
        final(state).wf(),
        match msg {
            ExecuteMsg::CreateProject {
                name,
                target_principal_amount,
                target_yield_amount,
                fund_deadline,
            } => {
                &&& r is Ok <==> spec_create_project_outcome(*old(state), name@) is Ok
                &&& r matches Err(e) ==> Err::<(), ContractError>(e)
                    == spec_create_project_outcome(*old(state), name@)
                &&& r is Ok ==> {
                    &&& r->Ok_0 == FactoryResponse::ProjectCreationStarted {
                        request: ProjectInstantiation {
                            id: CREATE_PROJECT_REPLY_ID,
                            code_id: old(state).config.project_code_id,
                            admin: env.contract_address,
                            project: spec_initial_project(
                                env.block_time,
                                info.sender,
                                name,
                                target_principal_amount,
                                target_yield_amount,
                                fund_deadline,
                            ),
                        },
                    }
                    &&& final(state).tmp_project_name == Some(name)
                    &&& final(state).projects == old(state).projects
                    &&& final(state).admin == old(state).admin
                    &&& final(state).config == old(state).config
                }
            },
            ExecuteMsg::UpdateAdmin { new_admin } => {
                &&& (r is Ok) == (spec_factory_update_admin_outcome(
                    *old(state),
                    info.sender@,
                ) is Ok)
                &&& r matches Err(e) ==> e == ContractError::Unauthorized
                &&& r is Ok ==> {
                    &&& r->Ok_0 == FactoryResponse::AdminUpdated
                    &&& final(state).admin == new_admin
                    &&& final(state).config == old(state).config
                    &&& final(state).projects == old(state).projects
                    &&& final(state).tmp_project_name == old(state).tmp_project_name
                }
            },
        },
        r is Err ==> *final(state) == *old(state),
{
    match msg {
        ExecuteMsg::CreateProject {
            name,
            target_principal_amount,
            target_yield_amount,
            fund_deadline,
        } => create_project(
            state,
            env,
            info,
            name,
            target_principal_amount,
            target_yield_amount,
            fund_deadline,
        ),
        ExecuteMsg::UpdateAdmin { new_admin } => update_admin(state, info, new_admin),
    }
}

/// What a registry lookup answers: the bound address, or `NotFound`.
pub open spec fn spec_factory_query_outcome(pre: FactoryState, name: Seq<char>) -> Result<
    Seq<char>,
    ContractError,
> {
    match pre.bound_address(name) {
        Some(addr) => Ok(addr),
        None => Err(ContractError::NotFound),
    }
}

/// Point lookup of a bound project address, for `GetProjectContractAddress`.
pub fn query_project_address(state: &FactoryState, name: &String) -> (r: Result<
    ProjectContractAddressResponse,
    ContractError,
>)
    ensures
        r is Ok <==> spec_factory_query_outcome(*state, name@) is Ok,
        r matches Ok(resp) ==> Ok::<Seq<char>, ContractError>(resp.address@)
            == spec_factory_query_outcome(*state, name@),
        r matches Err(e) ==> e == ContractError::NotFound,
{
    match address_of(&state.projects, name) {
        Some(address) => Ok(ProjectContractAddressResponse { address }),
        None => Err(ContractError::NotFound),
    }
}

/// Answers one read-only question.  The answer is a function of the state
/// and the question alone, so identical queries give identical results
/// absent an intervening mutation.
pub fn query(state: &FactoryState, msg: &QueryMsg) -> (r: Result<
    ProjectContractAddressResponse,
    ContractError,
>)
    ensures
        match msg {
            QueryMsg::GetProjectContractAddress { name } => {
                &&& r is Ok <==> spec_factory_query_outcome(*state, name@) is Ok
                &&& r matches Ok(resp) ==> Ok::<Seq<char>, ContractError>(resp.address@)
                    == spec_factory_query_outcome(*state, name@)
                &&& r matches Err(e) ==> e == ContractError::NotFound
            },
        },
{
    match msg {
        QueryMsg::GetProjectContractAddress { name } => query_project_address(state, name),
    }
}

} // verus!
