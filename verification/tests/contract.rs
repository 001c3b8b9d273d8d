use gas_distributor::answer::{attr, Event, Response, SendMsg};
use gas_distributor::contract::{execute, instantiate, query, Deps, QueryResponse, State};
use gas_distributor::distribute::DistributionMode;
use gas_distributor::error::{ContractError, OwnershipError};
use gas_distributor::host::{Api, BlockInfo, Env, MessageInfo, Querier, UNTRN_DENOM};
use gas_distributor::msg::{
    ExecuteMsg, InstantiateMsg, QueryMsg, TargetBalance, TargetBalanceUpdateParams,
};
use gas_distributor::ownership::{initialize_owner, Action, Expiration, Ownership};
use gas_distributor::table::TargetBalances;

const CONTRACT: &str = "cosmos2contract";

fn mock_dependencies(pool: u128) -> Deps {
    let mut api = Api::new();
    for known in [
        "sender",
        "owner",
        "new_owner",
        "somebody",
        "recepient",
        "address",
        "address1",
        "address2",
    ] {
        api.accept(known.to_string());
    }
    let mut querier = Querier::new();
    querier.update_balance(CONTRACT.to_string(), pool);
    Deps { api, querier }
}

fn mock_env() -> Env {
    Env {
        block: BlockInfo {
            height: 12_345,
            time: 1_571_797_419_879_305_533,
        },
        contract_address: CONTRACT.to_string(),
    }
}

fn mock_info(sender: &str) -> MessageInfo {
    MessageInfo {
        sender: sender.to_string(),
    }
}

fn owned_by(deps: &Deps, owner: &str) -> State {
    State {
        ownership: initialize_owner(&deps.api, Some(owner)).unwrap(),
        target_balances: TargetBalances::new(),
        mode: DistributionMode::default(),
    }
}

fn unowned(target_balances: &Vec<TargetBalance>, mode: DistributionMode) -> State {
    State {
        ownership: Ownership {
            owner: None,
            pending_owner: None,
            pending_expiry: None,
        },
        target_balances: TargetBalances::from_policies(target_balances),
        mode,
    }
}

fn policy(address: &str, target_balance: u128, threshold_balance: u128) -> TargetBalance {
    TargetBalance {
        address: address.to_string(),
        update_options: TargetBalanceUpdateParams {
            target_balance,
            threshold_balance,
            top_up_overshoot: 0,
        },
    }
}

fn event_only(ty: &str, attributes: Vec<gas_distributor::answer::Attribute>) -> Response {
    Response {
        messages: vec![],
        events: vec![Event {
            ty: ty.to_string(),
            attributes,
        }],
    }
}

fn send(to_address: &str, amount: u128) -> SendMsg {
    SendMsg {
        to_address: to_address.to_string(),
        denom: "untrn".to_string(),
        amount,
    }
}

fn owner_of(state: &State) -> String {
    match query(state, QueryMsg::Ownership {}).unwrap() {
        QueryResponse::Ownership(owner) => owner.unwrap(),
        other => panic!("unexpected answer: {:?}", other),
    }
}

fn all_policies(state: &State) -> Vec<TargetBalance> {
    match query(state, QueryMsg::TargetBalances {}).unwrap() {
        QueryResponse::TargetBalances(all) => all,
        other => panic!("unexpected answer: {:?}", other),
    }
}

#[test]
fn test_instantiate_general() {
    let deps = mock_dependencies(0);
    let (state, response) = instantiate(
        &deps,
        &mock_info("sender"),
        InstantiateMsg {
            owner: None,
            initial_target_balances: vec![
                policy("address1", 2000, 123),
                policy("address2", 1000, 321),
            ],
            distribution_mode: None,
        },
    )
    .unwrap();

    assert_eq!(
        response,
        event_only(
            "crates.io:drop-helper__drop-gas-distributor-instantiate",
            vec![
                attr("add-target-balance", "address1"),
                attr("add-target-balance", "address2")
            ]
        )
    );
    assert_eq!(
        all_policies(&state),
        vec![
            policy("address1", 2000, 123),
            policy("address2", 1000, 321)
        ]
    );
}

#[test]
fn test_instantiate_custom_owner() {
    let deps = mock_dependencies(0);
    let (state, response) = instantiate(
        &deps,
        &mock_info("sender"),
        InstantiateMsg {
            owner: Some("owner".to_string()),
            initial_target_balances: vec![
                policy("address1", 2000, 123),
                policy("address2", 1000, 321),
            ],
            distribution_mode: None,
        },
    )
    .unwrap();

    assert_eq!(
        response,
        event_only(
            "crates.io:drop-helper__drop-gas-distributor-instantiate",
            vec![
                attr("add-target-balance", "address1"),
                attr("add-target-balance", "address2")
            ]
        )
    );
    assert_eq!(owner_of(&state), "owner");
}

#[test]
fn test_instantiate_sender_owner() {
    let deps = mock_dependencies(0);
    let (state, response) = instantiate(
        &deps,
        &mock_info("sender"),
        InstantiateMsg {
            owner: None,
            initial_target_balances: vec![
                policy("address1", 2000, 123),
                policy("address2", 1000, 321),
            ],
            distribution_mode: None,
        },
    )
    .unwrap();

    assert_eq!(
        response,
        event_only(
            "crates.io:drop-helper__drop-gas-distributor-instantiate",
            vec![
                attr("add-target-balance", "address1"),
                attr("add-target-balance", "address2")
            ]
        )
    );
    assert_eq!(owner_of(&state), "sender");
}

#[test]
fn test_query_owner() {
    let deps = mock_dependencies(0);
    let state = owned_by(&deps, "owner");
    assert_eq!(owner_of(&state), "owner");
}

#[test]
fn test_query_target_balance() {
    let deps = mock_dependencies(0);
    let mut state = owned_by(&deps, "owner");
    let expected_params = policy("address", 2000, 123);
    state.target_balances = TargetBalances::from_policies(&vec![expected_params.clone()]);
    let response = query(
        &state,
        QueryMsg::TargetBalance {
            address: "address".to_string(),
        },
    )
    .unwrap();
    assert_eq!(response, QueryResponse::TargetBalance(expected_params));
}

#[test]
fn test_query_target_balance_not_exist() {
    let deps = mock_dependencies(0);
    let state = owned_by(&deps, "owner");
    let response = query(
        &state,
        QueryMsg::TargetBalance {
            address: "address".to_string(),
        },
    )
    .unwrap_err();
    assert_eq!(response, ContractError::UnknownTarget);
}

#[test]
fn test_query_target_balances() {
    let deps = mock_dependencies(0);
    let mut state = owned_by(&deps, "owner");
    let target_balances = vec![
        policy("address1", 2000, 123),
        policy("address2", 1000, 321),
    ];
    state.target_balances = TargetBalances::from_policies(&target_balances);
    assert_eq!(all_policies(&state), target_balances);
}

#[test]
fn test_execute_set_target_balances_unauthorized() {
    let deps = mock_dependencies(0);
    let mut state = owned_by(&deps, "owner");
    let execute_res = execute(
        &mut state,
        &deps,
        &mock_env(),
        &mock_info("somebody"),
        ExecuteMsg::SetTargetBalances {
            target_balances: vec![],
        },
    )
    .unwrap_err();
    assert_eq!(
        execute_res,
        ContractError::Unauthorized(OwnershipError::NotOwner)
    );
}

#[test]
fn test_execute_set_target_balances() {
    let deps = mock_dependencies(0);
    let mut state = owned_by(&deps, "owner");
    let expected_target_balances = vec![
        policy("address1", 2000, 123),
        policy("address2", 1000, 321),
    ];
    let execute_res = execute(
        &mut state,
        &deps,
        &mock_env(),
        &mock_info("owner"),
        ExecuteMsg::SetTargetBalances {
            target_balances: expected_target_balances.clone(),
        },
    )
    .unwrap();
    assert_eq!(
        execute_res,
        event_only(
            "crates.io:drop-helper__drop-gas-distributor-execute-set-target-balances",
            vec![
                attr("set-target-balance", "address1"),
                attr("set-target-balance", "address2")
            ]
        )
    );
    assert_eq!(state.target_balances.to_vec(), expected_target_balances)
}

#[test]
fn test_execute_withdraw_tokens_unauthorized() {
    let deps = mock_dependencies(0);
    let mut state = owned_by(&deps, "owner");
    let execute_res = execute(
        &mut state,
        &deps,
        &mock_env(),
        &mock_info("somebody"),
        ExecuteMsg::WithdrawTokens {
            recepient: None,
            amount: None,
        },
    )
    .unwrap_err();
    assert_eq!(
        execute_res,
        ContractError::Unauthorized(OwnershipError::NotOwner)
    );
}

#[test]
fn test_execute_withdraw_tokens_unauthorized_custom_recepient() {
    let deps = mock_dependencies(0);
    let mut state = owned_by(&deps, "owner");
    let execute_res = execute(
        &mut state,
        &deps,
        &mock_env(),
        &mock_info("owner"),
        ExecuteMsg::WithdrawTokens {
            recepient: Some("recepient".to_string()),
            amount: None,
        },
    )
    .unwrap();
    assert_eq!(
        execute_res,
        Response {
            messages: vec![send("recepient", 0)],
            events: vec![Event {
                ty: "crates.io:drop-helper__drop-gas-distributor-execute-withdraw-tokens"
                    .to_string(),
                attributes: vec![],
            }],
        }
    );
}

#[test]
fn test_execute_withdraw_tokens_unauthorized_custom_amount_insufficient_funds() {
    let deps = mock_dependencies(0);
    let mut state = owned_by(&deps, "owner");
    let execute_res = execute(
        &mut state,
        &deps,
        &mock_env(),
        &mock_info("owner"),
        ExecuteMsg::WithdrawTokens {
            recepient: Some("recepient".to_string()),
            amount: Some(123),
        },
    )
    .unwrap_err();
    assert_eq!(execute_res, ContractError::InsufficientFunds {});
}

#[test]
fn test_execute_withdraw_tokens_unauthorized_custom_amount() {
    let deps = mock_dependencies(123);
    let mut state = owned_by(&deps, "owner");
    let execute_res = execute(
        &mut state,
        &deps,
        &mock_env(),
        &mock_info("owner"),
        ExecuteMsg::WithdrawTokens {
            recepient: None,
            amount: Some(123),
        },
    )
    .unwrap();
    assert_eq!(
        execute_res,
        Response {
            messages: vec![send("owner", 123)],
            events: vec![Event {
                ty: "crates.io:drop-helper__drop-gas-distributor-execute-withdraw-tokens"
                    .to_string(),
                attributes: vec![],
            }],
        }
    );
}

#[test]
fn test_execute_withdraw_tokens_unauthorized_custom_amount_and_recepient() {
    let deps = mock_dependencies(123);
    let mut state = owned_by(&deps, "owner");
    let execute_res = execute(
        &mut state,
        &deps,
        &mock_env(),
        &mock_info("owner"),
        ExecuteMsg::WithdrawTokens {
            recepient: Some("recepient".to_string()),
            amount: Some(123),
        },
    )
    .unwrap();
    assert_eq!(
        execute_res,
        Response {
            messages: vec![send("recepient", 123)],
            events: vec![Event {
                ty: "crates.io:drop-helper__drop-gas-distributor-execute-withdraw-tokens"
                    .to_string(),
                attributes: vec![],
            }],
        }
    );
}

#[test]
fn test_distribute_2_addresses() {
    let mut deps = mock_dependencies(1000);
    let mut state = unowned(
        &vec![policy("address1", 100, 10), policy("address2", 100, 10)],
        DistributionMode::default(),
    );
    deps.querier
        .update_balance("address2".to_string(), 9);
    let execute_res = execute(
        &mut state,
        &deps,
        &mock_env(),
        &mock_info("owner"),
        ExecuteMsg::Distribute {},
    )
    .unwrap();

    assert_eq!(UNTRN_DENOM, "untrn");
    assert_eq!(
        execute_res,
        Response {
            messages: vec![send("address1", 100), send("address2", 91)],
            events: vec![Event {
                ty: "crates.io:drop-helper__drop-gas-distributor-execute-distribute".to_string(),
                attributes: vec![attr("address1", "100"), attr("address2", "91")],
            }],
        }
    );
}

#[test]
fn test_distribute_1_address() {
    let mut deps = mock_dependencies(150);
    let policies = vec![policy("address1", 100, 10), policy("address2", 100, 10)];
    let mut state = unowned(&policies, DistributionMode::BestEffort);
    deps.querier
        .update_balance("address1".to_string(), 9);
    let execute_res = execute(
        &mut state,
        &deps,
        &mock_env(),
        &mock_info("owner"),
        ExecuteMsg::Distribute {},
    )
    .unwrap();

    assert_eq!(
        execute_res,
        Response {
            messages: vec![send("address1", 91)],
            events: vec![Event {
                ty: "crates.io:drop-helper__drop-gas-distributor-execute-distribute".to_string(),
                attributes: vec![attr("address1", "91")],
            }],
        }
    );

    // By default the round pays for both recipients or for none: 191 are
    // needed and the pool holds 150.
    let mut strict = unowned(&policies, DistributionMode::default());
    let refused = execute(
        &mut strict,
        &deps,
        &mock_env(),
        &mock_info("owner"),
        ExecuteMsg::Distribute {},
    )
    .unwrap_err();
    assert_eq!(refused, ContractError::InsufficientFunds);
}

#[test]
fn test_distribute_nobody() {
    let mut deps = mock_dependencies(10);
    let policies = vec![policy("address1", 100, 10), policy("address2", 100, 10)];
    let mut state = unowned(&policies, DistributionMode::BestEffort);
    deps.querier
        .update_balance("address2".to_string(), 0);
    let execute_res = execute(
        &mut state,
        &deps,
        &mock_env(),
        &mock_info("owner"),
        ExecuteMsg::Distribute {},
    )
    .unwrap();

    assert_eq!(
        execute_res,
        event_only(
            "crates.io:drop-helper__drop-gas-distributor-execute-distribute",
            vec![]
        )
    );

    let mut strict = unowned(&policies, DistributionMode::default());
    let refused = execute(
        &mut strict,
        &deps,
        &mock_env(),
        &mock_info("owner"),
        ExecuteMsg::Distribute {},
    )
    .unwrap_err();
    assert_eq!(refused, ContractError::InsufficientFunds);
}

#[test]
fn test_query_ownership() {
    let deps = mock_dependencies(0);
    let state = owned_by(&deps, "owner");
    let query_res = owner_of(&state);
    assert_eq!(query_res, "owner".to_string());
}

#[test]
fn test_transfer_ownership() {
    let deps = mock_dependencies(0);
    let mut state = owned_by(&deps, "owner");
    execute(
        &mut state,
        &deps,
        &mock_env(),
        &mock_info("owner"),
        ExecuteMsg::UpdateOwnership(Action::TransferOwnership {
            new_owner: "new_owner".to_string(),
            expiry: Some(Expiration::Never {}),
        }),
    )
    .unwrap();
    execute(
        &mut state,
        &deps,
        &mock_env(),
        &mock_info("new_owner"),
        ExecuteMsg::UpdateOwnership(Action::AcceptOwnership {}),
    )
    .unwrap();
    let query_res = owner_of(&state);
    assert_eq!(query_res, "new_owner".to_string());
}
