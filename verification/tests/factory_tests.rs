use riskless::ack::{encode_ack, parse_ack};
use riskless::error::ContractError;
use riskless::factory::{ExecuteMsg, InstantiateMsg, QueryMsg};
use riskless::factory_contract::{
    create_project, execute, instantiate, query, query_project_address, reply, update_admin,
    FactoryResponse, FactoryState, CREATE_PROJECT_REPLY_ID,
};
use riskless::host::{Coin, Env, MessageInfo, Reply};
use riskless::project::ProjectStatus;
use riskless::project_contract as ledger;

const SENDER: &str = "terra1x46rqay4d3cssq8gxxvqz8xt6nwlz4td20k38v";
const CHILD: &str = "terra1childchildchildchildchildchildchild";

fn coins(amount: u128, denom: &str) -> Vec<Coin> {
    vec![Coin { denom: denom.to_string(), amount }]
}

fn mock_info(sender: &str, funds: Vec<Coin>) -> MessageInfo {
    MessageInfo { sender: sender.to_string(), funds }
}

fn mock_env(block_time: u64) -> Env {
    Env { block_time, contract_address: "factoryself".to_string() }
}

fn factory_state() -> FactoryState {
    let msg = InstantiateMsg {
        project_code_id: 7,
        anchor_money_market_address: Some(SENDER.to_string()),
        a_ust_address: Some(SENDER.to_string()),
    };
    instantiate(&mock_info(SENDER, coins(0, "uusd")), msg).unwrap()
}

fn ack_reply(address: &str) -> Reply {
    Reply { id: CREATE_PROJECT_REPLY_ID, data: Some(encode_ack(address)) }
}

#[test]
fn contract_proper_initialization() {
    // Initialize smart contract
    let msg = InstantiateMsg {
        project_code_id: 1,
        anchor_money_market_address: Some(SENDER.to_string()),
        a_ust_address: Some(SENDER.to_string()),
    };
    let info = mock_info(SENDER, coins(0, "uusd"));
    let mut factory = instantiate(&info, msg).unwrap();

    const TOKEN_MULTIPLIER: u128 = 1_000_000;
    let target_principal_amount: u128 = 1_000_000 * TOKEN_MULTIPLIER;
    // 20% of target_principal_amount
    let target_yield_amount = target_principal_amount * 20 / 100;
    let project_deadline: u64 = 1633028107;

    // Create new project with id: film1
    let project_name = "film1".to_string();
    let msg = ExecuteMsg::CreateProject {
        name: project_name.clone(),
        target_principal_amount,
        target_yield_amount,
        fund_deadline: project_deadline,
    };
    let info = mock_info(SENDER, coins(0, "uusd"));
    let res = execute(&mut factory, &mock_env(1633000000), &info, msg).unwrap();
    println!("{:?}", res);
    let request = match res {
        FactoryResponse::ProjectCreationStarted { request } => request,
        _ => panic!("expected a child-instantiation request"),
    };

    // The host instantiates the child and acknowledges with its address
    let mut state = ledger::instantiate(
        &mock_info("factoryself", vec![]),
        riskless::project::InstantiateMsg { project: request.project },
    );
    reply(&mut factory, &ack_reply(CHILD)).unwrap();

    // Query status of recently created project with id: film1
    let value = ledger::query_project_status(&state);
    assert_eq!(project_deadline, value.project_status.fund_deadline);

    // Fund project with 1000 uusd
    let fund_project_uusd = 1_000 * TOKEN_MULTIPLIER;
    let info = mock_info(SENDER, coins(fund_project_uusd, "uusd"));
    let res = ledger::fund_project(&mut state, &info).unwrap();
    println!("{:?}", res);

    // Query user balance
    let value = ledger::query_user_balance(&state, Some(SENDER.to_string())).unwrap();
    assert_eq!(fund_project_uusd, value.user_balance);
}

#[test]
fn end_to_end_create_bind_fund_query() {
    let mut factory = factory_state();
    let env = mock_env(1_650_000_000);

    // create "film1"
    let res = create_project(
        &mut factory,
        &env,
        &mock_info(SENDER, vec![]),
        "film1".to_string(),
        1_000_000_000,
        200_000_000,
        1_700_000_000,
    )
    .unwrap();
    let request = match res {
        FactoryResponse::ProjectCreationStarted { request } => request,
        _ => panic!("expected a child-instantiation request"),
    };
    assert_eq!(request.id, CREATE_PROJECT_REPLY_ID);
    assert_eq!(request.code_id, 7);
    assert_eq!(request.admin, "factoryself");
    assert_eq!(request.project.name, "film1");
    assert_eq!(request.project.creator, SENDER);
    assert_eq!(request.project.creation_date, 1_650_000_000);
    assert_eq!(request.project.project_status, ProjectStatus::FundingInProgress);
    assert_eq!(request.project.principal_amount, 0);

    // the acknowledgment binds "film1" to the child's address
    let res = reply(&mut factory, &ack_reply(CHILD)).unwrap();
    match res {
        FactoryResponse::ProjectBound { name, address } => {
            assert_eq!(name, "film1");
            assert_eq!(address, CHILD);
        }
        _ => panic!("expected the binding acknowledgment"),
    }
    let bound = query(
        &factory,
        &QueryMsg::GetProjectContractAddress { name: "film1".to_string() },
    )
    .unwrap();
    assert_eq!(bound.address, CHILD);

    // the child ledger starts from the request's record; backer B funds it
    let mut state = ledger::instantiate(
        &mock_info("factoryself", vec![]),
        riskless::project::InstantiateMsg { project: request.project },
    );
    let res = ledger::fund_project(&mut state, &mock_info("backerB", coins(20_000_000, "uusd")))
        .unwrap();
    assert_eq!(res, ledger::ProjectResponse::Funded { amount: 20_000_000 });
    let value = ledger::query_user_balance(&state, Some("backerB".to_string())).unwrap();
    assert_eq!(value.user_balance, 20_000_000);
    let status = ledger::query_project_status(&state);
    assert_eq!(status.project_status.principal_amount, 20_000_000);
    assert_eq!(status.project_status.project_status, ProjectStatus::FundingInProgress);
}

#[test]
fn instantiate_requires_both_addresses() {
    let msg = InstantiateMsg {
        project_code_id: 7,
        anchor_money_market_address: None,
        a_ust_address: Some(SENDER.to_string()),
    };
    let res = instantiate(&mock_info(SENDER, vec![]), msg);
    assert!(matches!(res, Err(ContractError::InvalidAddress)));

    let msg = InstantiateMsg {
        project_code_id: 7,
        anchor_money_market_address: Some(SENDER.to_string()),
        a_ust_address: None,
    };
    let res = instantiate(&mock_info(SENDER, vec![]), msg);
    assert!(matches!(res, Err(ContractError::InvalidAddress)));
}

#[test]
fn duplicate_name_is_rejected() {
    let mut factory = factory_state();
    let env = mock_env(1_650_000_000);
    create_project(&mut factory, &env, &mock_info(SENDER, vec![]), "film1".to_string(), 1, 1, 2)
        .unwrap();
    reply(&mut factory, &ack_reply(CHILD)).unwrap();

    let res = create_project(
        &mut factory,
        &env,
        &mock_info(SENDER, vec![]),
        "film1".to_string(),
        1,
        1,
        2,
    );
    assert!(matches!(res, Err(ContractError::DuplicateProject)));
}

#[test]
fn second_creation_in_flight_is_rejected() {
    let mut factory = factory_state();
    let env = mock_env(1_650_000_000);
    create_project(&mut factory, &env, &mock_info(SENDER, vec![]), "film1".to_string(), 1, 1, 2)
        .unwrap();
    let res = create_project(
        &mut factory,
        &env,
        &mock_info(SENDER, vec![]),
        "film2".to_string(),
        1,
        1,
        2,
    );
    assert!(matches!(res, Err(ContractError::UnableToCreateNewProject)));

    // once the first acknowledgment lands, a new creation may start
    reply(&mut factory, &ack_reply(CHILD)).unwrap();
    let res = create_project(
        &mut factory,
        &env,
        &mock_info(SENDER, vec![]),
        "film2".to_string(),
        1,
        1,
        2,
    );
    assert!(res.is_ok());
}

#[test]
fn reply_with_unknown_id_is_rejected() {
    let mut factory = factory_state();
    let env = mock_env(1_650_000_000);
    create_project(&mut factory, &env, &mock_info(SENDER, vec![]), "film1".to_string(), 1, 1, 2)
        .unwrap();
    let res = reply(&mut factory, &Reply { id: 2, data: Some(encode_ack(CHILD)) });
    assert!(matches!(res, Err(ContractError::UnableToCreateNewProject)));
}

#[test]
fn reply_without_payload_is_rejected() {
    let mut factory = factory_state();
    let env = mock_env(1_650_000_000);
    create_project(&mut factory, &env, &mock_info(SENDER, vec![]), "film1".to_string(), 1, 1, 2)
        .unwrap();
    let res = reply(&mut factory, &Reply { id: CREATE_PROJECT_REPLY_ID, data: None });
    assert!(matches!(res, Err(ContractError::UnableToCreateNewProject)));
}

#[test]
fn reply_with_malformed_payload_is_rejected() {
    let mut factory = factory_state();
    let env = mock_env(1_650_000_000);
    create_project(&mut factory, &env, &mock_info(SENDER, vec![]), "film1".to_string(), 1, 1, 2)
        .unwrap();
    // wrong field tag
    let res = reply(
        &mut factory,
        &Reply { id: CREATE_PROJECT_REPLY_ID, data: Some(vec![0x12, 1, b'x']) },
    );
    assert!(matches!(res, Err(ContractError::UnableToCreateNewProject)));
    // payload that is not valid text
    let res = reply(
        &mut factory,
        &Reply { id: CREATE_PROJECT_REPLY_ID, data: Some(vec![0x0A, 1, 0xFF]) },
    );
    assert!(matches!(res, Err(ContractError::UnableToCreateNewProject)));
    // the rejections were all-or-nothing: the creation is still pending
    assert!(reply(&mut factory, &ack_reply(CHILD)).is_ok());
}

#[test]
fn reply_without_pending_creation_is_rejected() {
    let mut factory = factory_state();
    let res = reply(&mut factory, &ack_reply(CHILD));
    assert!(matches!(res, Err(ContractError::NoPendingProject)));
}

#[test]
fn query_unknown_name_is_not_found() {
    let factory = factory_state();
    let res = query_project_address(&factory, &"nosuch".to_string());
    assert!(matches!(res, Err(ContractError::NotFound)));
}

#[test]
fn factory_update_admin_requires_current_admin() {
    let mut factory = factory_state();
    let res = update_admin(&mut factory, &mock_info("stranger", vec![]), None);
    assert!(matches!(res, Err(ContractError::Unauthorized)));
    let res = update_admin(
        &mut factory,
        &mock_info(SENDER, vec![]),
        Some("newadmin".to_string()),
    );
    assert!(res.is_ok());
    assert_eq!(factory.admin, Some("newadmin".to_string()));
}

#[test]
fn ack_encoding_round_trips() {
    let encoded = encode_ack(CHILD);
    assert_eq!(encoded[0], 0x0A);
    assert_eq!(encoded[1] as usize, CHILD.len());
    let payload = parse_ack(&encoded).unwrap();
    assert_eq!(payload, CHILD.as_bytes());
}

#[test]
fn parse_ack_rejects_malformed_framing() {
    assert!(parse_ack(&vec![]).is_none());
    assert!(parse_ack(&vec![0x0A]).is_none());
    // wrong tag
    assert!(parse_ack(&vec![0x12, 1, b'x']).is_none());
    // length byte disagrees with the payload
    assert!(parse_ack(&vec![0x0A, 2, b'x']).is_none());
    assert!(parse_ack(&vec![0x0A, 0, b'x']).is_none());
    // over-long length form
    let mut long = vec![0x0A, 200];
    long.extend(std::iter::repeat(b'x').take(200));
    assert!(parse_ack(&long).is_none());
    // the empty address is well-formed framing
    assert_eq!(parse_ack(&vec![0x0A, 0]).unwrap(), Vec::<u8>::new());
}
