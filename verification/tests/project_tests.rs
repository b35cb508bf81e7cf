use riskless::error::ContractError;
use riskless::host::{Coin, Env, MessageInfo};
use riskless::project::{ExecuteMsg, InstantiateMsg, Project, ProjectStatus, QueryMsg};
use riskless::project_contract::{
    change_status, execute, fund_project, instantiate, query, query_user_balance,
    update_admin, withdraw_principal, withdraw_yield, ProjectResponse, ProjectState,
    QueryResponse,
};

const TOKEN_MULTIPLIER: u128 = 1_000_000;
const SENDER: &str = "terra1x46rqay4d3cssq8gxxvqz8xt6nwlz4td20k38v";
const DAY: u64 = 86_400;

fn coins(amount: u128, denom: &str) -> Vec<Coin> {
    vec![Coin { denom: denom.to_string(), amount }]
}

fn mock_info(sender: &str, funds: Vec<Coin>) -> MessageInfo {
    MessageInfo { sender: sender.to_string(), funds }
}

fn mock_env(block_time: u64) -> Env {
    Env { block_time, contract_address: "factory".to_string() }
}

fn sample_project(status: ProjectStatus, creation_date: u64, fund_deadline: u64) -> Project {
    Project {
        name: "Film 1".to_string(),
        creator: SENDER.to_string(),
        creation_date,
        project_status: status,
        target_principal_amount: 1_000_000_000,
        target_yield_amount: 500_000_000,
        principal_amount: 0,
        fund_deadline,
    }
}

fn sample_state(status: ProjectStatus, creation_date: u64, fund_deadline: u64) -> ProjectState {
    let info = mock_info(SENDER, coins(0, "uusd"));
    instantiate(&info, InstantiateMsg { project: sample_project(status, creation_date, fund_deadline) })
}

fn balance(state: &ProjectState, user: &str) -> u128 {
    query_user_balance(state, Some(user.to_string())).unwrap().user_balance
}

#[test]
fn proper_initialization() {
    let project = sample_project(ProjectStatus::FundingInProgress, 1662105262, 1662105262);

    // Initialize new project contract
    let msg = InstantiateMsg { project };
    let info = mock_info(SENDER, coins(0, "uusd"));
    let state = instantiate(&info, msg);

    // Query status of project
    let res = query(&state, QueryMsg::GetProjectStatus {}).unwrap();
    match res {
        QueryResponse::Status(value) => {
            assert_eq!(1662105262, value.project_status.fund_deadline);
        }
        _ => panic!("unexpected query response"),
    }

    // Fund project with 20 uusd
    let mut state = state;
    let fund_project_uusd = 20 * TOKEN_MULTIPLIER;
    let msg = ExecuteMsg::FundProject {};
    let info = mock_info(SENDER, coins(fund_project_uusd, "uusd"));
    let res = execute(&mut state, &mock_env(1662105262), &info, msg).unwrap();
    println!("{:?}", res);

    // Query user balance
    let res = query(&state, QueryMsg::GetUserBalance { user: Some(SENDER.to_string()) }).unwrap();
    match res {
        QueryResponse::Balance(value) => {
            assert_eq!(fund_project_uusd, value.user_balance);
        }
        _ => panic!("unexpected query response"),
    }
}

#[test]
fn fund_increments_backing_and_principal() {
    let mut state = sample_state(ProjectStatus::FundingInProgress, 1000, 100_000);
    let info = mock_info("backer1", coins(25_000_000, "uusd"));
    let res = fund_project(&mut state, &info).unwrap();
    assert_eq!(res, ProjectResponse::Funded { amount: 25_000_000 });
    assert_eq!(state.project.principal_amount, 25_000_000);
    assert_eq!(balance(&state, "backer1"), 25_000_000);

    // a second deposit accumulates on the same record
    let res = fund_project(&mut state, &info).unwrap();
    assert_eq!(res, ProjectResponse::Funded { amount: 25_000_000 });
    assert_eq!(state.project.principal_amount, 50_000_000);
    assert_eq!(balance(&state, "backer1"), 50_000_000);
}

#[test]
fn fund_below_minimum_rejected_without_mutation() {
    let mut state = sample_state(ProjectStatus::FundingInProgress, 1000, 100_000);
    let info = mock_info("backer1", coins(19_999_999, "uusd"));
    let res = fund_project(&mut state, &info);
    assert_eq!(res, Err(ContractError::DepositMinimumError));
    assert_eq!(state.project.principal_amount, 0);
    assert_eq!(balance(&state, "backer1"), 0);
}

#[test]
fn fund_exactly_at_minimum_accepted() {
    let mut state = sample_state(ProjectStatus::FundingInProgress, 1000, 100_000);
    let info = mock_info("backer1", coins(20_000_000, "uusd"));
    assert_eq!(
        fund_project(&mut state, &info),
        Ok(ProjectResponse::Funded { amount: 20_000_000 })
    );
}

#[test]
fn fund_without_uusd_counts_as_zero() {
    let mut state = sample_state(ProjectStatus::FundingInProgress, 1000, 100_000);
    let info = mock_info("backer1", coins(50_000_000, "uluna"));
    assert_eq!(fund_project(&mut state, &info), Err(ContractError::DepositMinimumError));
}

#[test]
fn fund_closed_project_fails_regardless_of_amount() {
    for status in [ProjectStatus::ProjectClosedFail, ProjectStatus::ProjectClosedSuccess] {
        let mut state = sample_state(status, 1000, 100_000);
        let info = mock_info("backer1", coins(500_000_000, "uusd"));
        assert_eq!(fund_project(&mut state, &info), Err(ContractError::UnableToFundProject));
        assert_eq!(state.project.principal_amount, 0);
    }
}

#[test]
fn fund_then_withdraw_principal_round_trip() {
    let mut state = sample_state(ProjectStatus::FundingInProgress, 1000, 100_000);
    let info = mock_info("backer1", coins(20_000_000, "uusd"));
    fund_project(&mut state, &info).unwrap();

    let env = mock_env(1000);
    let res = withdraw_principal(&mut state, &env, &mock_info("backer1", vec![])).unwrap();
    assert_eq!(res, ProjectResponse::PrincipalWithdrawn { amount: 20_000_000 });
    assert_eq!(state.project.principal_amount, 0);
    assert_eq!(balance(&state, "backer1"), 0);
}

#[test]
fn withdraw_principal_without_backing_fails() {
    let mut state = sample_state(ProjectStatus::FundingInProgress, 1000, 100_000);
    let env = mock_env(1000);
    let res = withdraw_principal(&mut state, &env, &mock_info("stranger", vec![]));
    assert_eq!(res, Err(ContractError::NoBackingFound));
}

#[test]
fn withdraw_principal_locked_while_yield_under_target() {
    let mut state = sample_state(ProjectStatus::Delivery, 1000, 100_000);
    let info = mock_info("backer1", coins(20_000_000, "uusd"));
    fund_project(&mut state, &info).unwrap();

    // no time has passed: accrued yield is zero, below the target
    let env = mock_env(1000);
    let res = withdraw_principal(&mut state, &env, &mock_info("backer1", vec![])).unwrap();
    assert_eq!(res, ProjectResponse::PrincipalLocked);
    assert_eq!(state.project.principal_amount, 20_000_000);
    assert_eq!(balance(&state, "backer1"), 20_000_000);
}

#[test]
fn withdraw_principal_allowed_once_yield_target_met() {
    let mut state = sample_state(ProjectStatus::Delivery, 1000, 100_000);
    state.project.target_yield_amount = 200_000;
    state.project.principal_amount = 1_000_000;
    state.backings.push(riskless::backings::Backing {
        backer: "backer1".to_string(),
        amount: 1_000_000,
    });

    // 365 days later the accrued yield (221_335) has passed the target
    let env = mock_env(1000 + 365 * DAY);
    let res = withdraw_principal(&mut state, &env, &mock_info("backer1", vec![])).unwrap();
    assert_eq!(res, ProjectResponse::PrincipalWithdrawn { amount: 1_000_000 });
    assert_eq!(state.project.principal_amount, 0);
}

#[test]
fn change_status_automatic_rule_past_deadline() {
    // target reached: Delivery
    let mut state = sample_state(ProjectStatus::FundingInProgress, 1000, 2000);
    state.project.principal_amount = 1_000_000_001;
    let res = change_status(&mut state, &mock_env(2000), &mock_info("anyone", vec![]), None);
    assert_eq!(res, Ok(ProjectResponse::StatusChanged));
    assert_eq!(state.project.project_status, ProjectStatus::Delivery);

    // boundary equality counts as reached
    let mut state = sample_state(ProjectStatus::FundingInProgress, 1000, 2000);
    state.project.principal_amount = 1_000_000_000;
    change_status(&mut state, &mock_env(2000), &mock_info("anyone", vec![]), None).unwrap();
    assert_eq!(state.project.project_status, ProjectStatus::Delivery);

    // target missed: ProjectClosedFail
    let mut state = sample_state(ProjectStatus::FundingInProgress, 1000, 2000);
    state.project.principal_amount = 999_999_999;
    change_status(&mut state, &mock_env(2000), &mock_info("anyone", vec![]), None).unwrap();
    assert_eq!(state.project.project_status, ProjectStatus::ProjectClosedFail);
}

#[test]
fn change_status_before_deadline_keeps_status() {
    let mut state = sample_state(ProjectStatus::FundingInProgress, 1000, 2000);
    change_status(&mut state, &mock_env(1999), &mock_info("anyone", vec![]), None).unwrap();
    assert_eq!(state.project.project_status, ProjectStatus::FundingInProgress);
}

#[test]
fn change_status_admin_override() {
    // the instantiating sender is the admin
    let mut state = sample_state(ProjectStatus::FundingInProgress, 1000, 100_000);
    change_status(
        &mut state,
        &mock_env(1000),
        &mock_info(SENDER, vec![]),
        Some(ProjectStatus::ProjectClosedSuccess),
    )
    .unwrap();
    assert_eq!(state.project.project_status, ProjectStatus::ProjectClosedSuccess);

    // a non-admin's override request is ignored, not an error
    let mut state = sample_state(ProjectStatus::FundingInProgress, 1000, 100_000);
    let res = change_status(
        &mut state,
        &mock_env(1000),
        &mock_info("stranger", vec![]),
        Some(ProjectStatus::ProjectClosedSuccess),
    );
    assert_eq!(res, Ok(ProjectResponse::StatusChanged));
    assert_eq!(state.project.project_status, ProjectStatus::FundingInProgress);
}

#[test]
fn change_status_admin_override_then_automatic_rule() {
    // the automatic rule evaluates on the just-overridden status
    let mut state = sample_state(ProjectStatus::ProjectClosedSuccess, 1000, 2000);
    change_status(
        &mut state,
        &mock_env(2000),
        &mock_info(SENDER, vec![]),
        Some(ProjectStatus::FundingInProgress),
    )
    .unwrap();
    assert_eq!(state.project.project_status, ProjectStatus::ProjectClosedFail);
}

#[test]
fn withdraw_yield_creator_after_success_takes_all() {
    let mut state = sample_state(ProjectStatus::ProjectClosedSuccess, 1000, 100_000);
    state.project.target_yield_amount = 200_000;
    state.project.principal_amount = 1_000_000;
    let env = mock_env(1000 + 365 * DAY);
    let res = withdraw_yield(&mut state, &env, &mock_info(SENDER, vec![])).unwrap();
    assert_eq!(res, ProjectResponse::AllYieldWithdrawn { amount: 221_335 });
    // payout bookkeeping is out of scope for the creator: state unchanged
    assert_eq!(state.project.principal_amount, 1_000_000);
}

#[test]
fn withdraw_yield_creator_before_target_is_off_track() {
    let mut state = sample_state(ProjectStatus::FundingInProgress, 1000, 100_000);
    state.project.target_yield_amount = 200_000;
    state.project.principal_amount = 1_000_000;
    let env = mock_env(1000);
    let res = withdraw_yield(&mut state, &env, &mock_info(SENDER, vec![])).unwrap();
    assert_eq!(res, ProjectResponse::YieldOffTrack);
}

#[test]
fn withdraw_yield_creator_target_met_but_not_closed_errors() {
    let mut state = sample_state(ProjectStatus::Delivery, 1000, 100_000);
    state.project.target_yield_amount = 200_000;
    state.project.principal_amount = 1_000_000;
    let env = mock_env(1000 + 365 * DAY);
    let res = withdraw_yield(&mut state, &env, &mock_info(SENDER, vec![]));
    assert_eq!(res, Err(ContractError::CreatorUnableToWithdrawYield));
}

#[test]
fn withdraw_yield_backer_before_target_not_ready() {
    let mut state = sample_state(ProjectStatus::FundingInProgress, 1000, 100_000);
    state.project.target_yield_amount = 500_000_000;
    let info = mock_info("backer1", coins(20_000_000, "uusd"));
    fund_project(&mut state, &info).unwrap();
    let env = mock_env(1000);
    let res = withdraw_yield(&mut state, &env, &mock_info("backer1", vec![])).unwrap();
    assert_eq!(res, ProjectResponse::YieldNotReady);
    assert_eq!(balance(&state, "backer1"), 20_000_000);
}

#[test]
fn withdraw_yield_backer_without_backing_fails() {
    let mut state = sample_state(ProjectStatus::FundingInProgress, 1000, 100_000);
    state.project.principal_amount = 1_000_000;
    let env = mock_env(1000);
    let res = withdraw_yield(&mut state, &env, &mock_info("stranger", vec![]));
    assert_eq!(res, Err(ContractError::NoBackingFound));
}

#[test]
fn withdraw_yield_two_backers_pro_rata() {
    let mut state = sample_state(ProjectStatus::FundingInProgress, 1000, 100_000);
    state.project.target_yield_amount = 200_000;
    // two backers whose contributions exhaust the principal: 333_333 + 666_667
    state.project.principal_amount = 1_000_000;
    state.backings.push(riskless::backings::Backing {
        backer: "backer1".to_string(),
        amount: 333_333,
    });
    state.backings.push(riskless::backings::Backing {
        backer: "backer2".to_string(),
        amount: 666_667,
    });

    // 365 days later the accrued yield is 221_335, past the 200_000 target
    let env = mock_env(1000 + 365 * DAY);
    let res1 = withdraw_yield(&mut state, &env, &mock_info("backer1", vec![])).unwrap();
    assert_eq!(res1, ProjectResponse::BackerYieldWithdrawn { amount: 73_778 });
    let res2 = withdraw_yield(&mut state, &env, &mock_info("backer2", vec![])).unwrap();
    assert_eq!(res2, ProjectResponse::BackerYieldWithdrawn { amount: 147_556 });
    // the shares reassemble the accrued 221_335 within one unit
    assert_eq!(73_778 + 147_556, 221_335 - 1);
    // each payout came out of the backer's recorded balance, not principal
    assert_eq!(balance(&state, "backer1"), 333_333 - 73_778);
    assert_eq!(balance(&state, "backer2"), 666_667 - 147_556);
    assert_eq!(state.project.principal_amount, 1_000_000);
}

#[test]
fn withdraw_yield_backer_after_project_failed() {
    let mut state = sample_state(ProjectStatus::FundingInProgress, 1000, 100_000);
    state.project.target_yield_amount = 500_000_000;
    state.project.principal_amount = 1_000_000;
    state.backings.push(riskless::backings::Backing {
        backer: "backer1".to_string(),
        amount: 1_000_000,
    });
    state.project.project_status = ProjectStatus::ProjectClosedFail;
    // failure opens the payout even though yield never reached the target
    let env = mock_env(1000 + 365 * DAY);
    let res = withdraw_yield(&mut state, &env, &mock_info("backer1", vec![])).unwrap();
    assert_eq!(res, ProjectResponse::BackerYieldWithdrawn { amount: 221_335 });
}

#[test]
fn yield_overflow_is_unable_to_acquire() {
    let mut state = sample_state(ProjectStatus::FundingInProgress, 1000, 100_000);
    state.project.principal_amount = u128::MAX;
    state.backings.push(riskless::backings::Backing {
        backer: "backer1".to_string(),
        amount: 5,
    });
    let env = mock_env(1000 + DAY);
    let res = withdraw_principal(&mut state, &env, &mock_info("backer1", vec![]));
    assert_eq!(res, Err(ContractError::UnableToAcquireYield));
}

#[test]
fn update_admin_requires_current_admin() {
    let mut state = sample_state(ProjectStatus::FundingInProgress, 1000, 100_000);
    let res = update_admin(&mut state, &mock_info("stranger", vec![]), Some("stranger".to_string()));
    assert_eq!(res, Err(ContractError::Unauthorized));
    assert_eq!(state.admin, Some(SENDER.to_string()));

    let res = update_admin(&mut state, &mock_info(SENDER, vec![]), Some("newadmin".to_string()));
    assert_eq!(res, Ok(ProjectResponse::AdminUpdated));
    assert_eq!(state.admin, Some("newadmin".to_string()));
}

#[test]
fn query_user_balance_requires_user() {
    let state = sample_state(ProjectStatus::FundingInProgress, 1000, 100_000);
    assert_eq!(query_user_balance(&state, None), Err(ContractError::InvalidAddress));
    // an unknown user reads as zero, not as an error
    assert_eq!(
        query_user_balance(&state, Some("nobody".to_string())).unwrap().user_balance,
        0
    );
}

#[test]
fn queries_are_idempotent() {
    let mut state = sample_state(ProjectStatus::FundingInProgress, 1000, 100_000);
    fund_project(&mut state, &mock_info("backer1", coins(20_000_000, "uusd"))).unwrap();

    let first = query_user_balance(&state, Some("backer1".to_string())).unwrap();
    let second = query_user_balance(&state, Some("backer1".to_string())).unwrap();
    assert_eq!(first, second);

    let s1 = match query(&state, QueryMsg::GetProjectStatus {}).unwrap() {
        QueryResponse::Status(v) => v,
        _ => panic!("unexpected query response"),
    };
    let s2 = match query(&state, QueryMsg::GetProjectStatus {}).unwrap() {
        QueryResponse::Status(v) => v,
        _ => panic!("unexpected query response"),
    };
    assert_eq!(s1.project_status.principal_amount, s2.project_status.principal_amount);
    assert_eq!(s1.project_status.project_status, s2.project_status.project_status);
    assert_eq!(s1.project_status.name, s2.project_status.name);
}
