use cosmwasm_std::testing::{mock_dependencies, mock_env};
use cosmwasm_std::{Addr, Timestamp, Uint128};
use gas_distributor::distribute::{distribute, DistributionMode};
use gas_distributor::error::{ContractError, OwnershipError};
use gas_distributor::host::{Api, BlockInfo, Querier};
use gas_distributor::msg::{TargetBalance, TargetBalanceUpdateParams};
use gas_distributor::ownership::{update_ownership, Action, Expiration, Ownership};
use gas_distributor::table::TargetBalances;

fn reason(e: &cw_ownable::OwnershipError) -> ContractError {
    match e {
        cw_ownable::OwnershipError::NoOwner => ContractError::Unauthorized(OwnershipError::NoOwner),
        cw_ownable::OwnershipError::NotOwner => {
            ContractError::Unauthorized(OwnershipError::NotOwner)
        }
        cw_ownable::OwnershipError::NotPendingOwner => {
            ContractError::Unauthorized(OwnershipError::NotPendingOwner)
        }
        cw_ownable::OwnershipError::TransferNotFound => {
            ContractError::Unauthorized(OwnershipError::TransferNotFound)
        }
        cw_ownable::OwnershipError::TransferExpired => {
            ContractError::Unauthorized(OwnershipError::TransferExpired)
        }
        cw_ownable::OwnershipError::Std(_) => ContractError::InvalidPolicy,
    }
}

fn deadline(e: &Option<Expiration>) -> Option<cw_ownable::Expiration> {
    e.map(|e| match e {
        Expiration::AtHeight(h) => cw_ownable::Expiration::AtHeight(h),
        Expiration::AtTime(t) => cw_ownable::Expiration::AtTime(Timestamp::from_nanos(t)),
        Expiration::Never => cw_ownable::Expiration::Never {},
    })
}

fn outside_action(action: &Action) -> cw_ownable::Action {
    match action {
        Action::TransferOwnership { new_owner, expiry } => cw_ownable::Action::TransferOwnership {
            new_owner: new_owner.clone(),
            expiry: deadline(expiry),
        },
        Action::AcceptOwnership => cw_ownable::Action::AcceptOwnership,
        Action::RenounceOwnership => cw_ownable::Action::RenounceOwnership,
    }
}

fn same(ours: &Ownership, theirs: &cw_ownable::Ownership<Addr>) -> bool {
    ours.owner == theirs.owner.as_ref().map(|a| a.to_string())
        && ours.pending_owner == theirs.pending_owner.as_ref().map(|a| a.to_string())
        && deadline(&ours.pending_expiry) == theirs.pending_expiry
}

#[test]
fn ownership_follows_the_same_rules_as_cw_ownable() {
    let names = ["larry", "jake", "pumpkin"];
    let mut api = Api::new();
    for n in names {
        api.accept(n.to_string());
    }
    let deadlines = [
        None,
        Some(Expiration::Never),
        Some(Expiration::AtHeight(12_345)),
        Some(Expiration::AtHeight(12_346)),
        Some(Expiration::AtTime(1_571_797_419_879_305_533)),
        Some(Expiration::AtTime(1_571_797_419_879_305_534)),
    ];
    let mut actions: Vec<Action> = vec![Action::AcceptOwnership, Action::RenounceOwnership];
    for n in names {
        for d in deadlines {
            actions.push(Action::TransferOwnership {
                new_owner: n.to_string(),
                expiry: d,
            });
        }
    }
    let env = mock_env();
    let block = BlockInfo {
        height: env.block.height,
        time: env.block.time.nanos(),
    };
    // Every pair of steps, each by any of the three accounts, and a third
    // step behind it.
    let steps: Vec<(usize, usize)> = (0..names.len())
        .flat_map(|s| (0..actions.len()).map(move |a| (s, a)))
        .collect();
    let mut compared = 0u32;
    for first in &steps {
        for second in &steps {
            for third in steps.iter().step_by(13) {
                let mut deps = mock_dependencies();
                cw_ownable::initialize_owner(&mut deps.storage, &deps.api, Some("larry")).unwrap();
                let mut ours = Ownership {
                    owner: Some("larry".to_string()),
                    pending_owner: None,
                    pending_expiry: None,
                };
                for (sender, action) in [first, second, third] {
                    let sender = names[*sender];
                    let action = &actions[*action];
                    let theirs = cw_ownable::update_ownership(
                        deps.as_mut(),
                        &env.block,
                        &Addr::unchecked(sender),
                        outside_action(action),
                    );
                    let r = update_ownership(&mut ours, &api, &block, sender, action.clone());
                    match &theirs {
                        Ok(_) => assert_eq!(r, Ok(())),
                        Err(e) => assert_eq!(r, Err(reason(e))),
                    }
                    let stored = cw_ownable::get_ownership(&deps.storage).unwrap();
                    assert!(same(&ours, &stored), "{:?} against {:?}", ours, stored);
                    assert_eq!(
                        cw_ownable::is_owner(&deps.storage, &Addr::unchecked(sender)).unwrap(),
                        gas_distributor::ownership::is_owner(&ours, sender)
                    );
                    assert_eq!(
                        cw_ownable::assert_owner(&deps.storage, &Addr::unchecked(sender))
                            .map_err(|e| reason(&e)),
                        gas_distributor::ownership::assert_owner(&ours, sender)
                    );
                    compared += 1;
                }
            }
        }
    }
    assert!(compared > 10_000);
}

#[test]
fn deadlines_lapse_as_in_cw_utils() {
    let env = mock_env();
    let block = BlockInfo {
        height: env.block.height,
        time: env.block.time.nanos(),
    };
    for h in [0, env.block.height - 1, env.block.height, env.block.height + 1, u64::MAX] {
        let ours = Expiration::AtHeight(h);
        assert_eq!(
            ours.is_expired(&block),
            deadline(&Some(ours)).unwrap().is_expired(&env.block)
        );
    }
    let now = env.block.time.nanos();
    for t in [0, now - 1, now, now + 1, u64::MAX] {
        let ours = Expiration::AtTime(t);
        assert_eq!(
            ours.is_expired(&block),
            deadline(&Some(ours)).unwrap().is_expired(&env.block)
        );
    }
    assert_eq!(
        Expiration::Never.is_expired(&block),
        cw_ownable::Expiration::Never {}.is_expired(&env.block)
    );
}

#[test]
fn amounts_agree_with_uint128_arithmetic() {
    for (target, threshold, current, pool) in [
        (100u128, 10u128, 9u128, 1000u128),
        (100, 100, 0, 100),
        (100, 100, 99, 1),
        (u128::MAX, u128::MAX, 1, u128::MAX),
        (5, 5, 4, 0),
    ] {
        let table = TargetBalances::from_policies(&vec![TargetBalance {
            address: "a".to_string(),
            update_options: TargetBalanceUpdateParams {
                threshold_balance: threshold,
                target_balance: target,
                top_up_overshoot: 0,
            },
        }]);
        let mut querier = Querier::new();
        querier.update_balance("a".to_string(), current);
        let sent = distribute(&table, &querier, pool, DistributionMode::BestEffort).unwrap();
        let funds = Uint128::new(target) - Uint128::new(current);
        if Uint128::new(current) < Uint128::new(threshold)
            && Uint128::new(pool).checked_sub(funds).is_ok()
        {
            assert_eq!(sent.len(), 1);
            assert_eq!(Uint128::new(sent[0].amount), funds);
            assert_eq!(sent[0].amount.to_string(), funds.to_string());
        } else {
            assert!(sent.is_empty());
        }
    }
}
