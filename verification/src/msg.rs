//! The values that callers exchange with the distributor.

use crate::distribute::DistributionMode;
use crate::error::ContractError;
use crate::host::Api;
use crate::ownership::Action;
use vstd::prelude::*;

verus! {

/// The levels that govern the funding of one account.
#[derive(Clone, Copy, Debug, PartialEq, Eq, Structural)]
pub struct TargetBalanceUpdateParams {
    /// The account is funded only while it holds less than this.
    pub threshold_balance: u128,
    /// The level that a top-up restores the account to.
    pub target_balance: u128,
    /// What a top-up sends beyond the target.
    pub top_up_overshoot: u128,
}

impl TargetBalanceUpdateParams {
    /// The threshold may not lie above the target.
    pub open spec fn valid(&self) -> bool {
        self.threshold_balance <= self.target_balance
    }

    /// Builds the levels from a target and two optional settings: without a
    /// threshold the account is funded whenever it is below the target, and
    /// without an overshoot a top-up stops at the target.
    pub fn new(
        target_balance: u128,
        threshold_balance: Option<u128>,
        top_up_overshoot: Option<u128>,
    ) -> (options: TargetBalanceUpdateParams)
        ensures
            options.target_balance == target_balance,
            options.threshold_balance == match threshold_balance {
                Some(t) => t,
                None => target_balance,
            },
            options.top_up_overshoot == match top_up_overshoot {
                Some(o) => o,
                None => 0,
            },
    {
        TargetBalanceUpdateParams {
            threshold_balance: match threshold_balance {
                Some(t) => t,
                None => target_balance,
            },
            target_balance,
            top_up_overshoot: match top_up_overshoot {
                Some(o) => o,
                None => 0,
            },
        }
    }
}

/// The policy of one recipient.
#[derive(Clone, Debug, PartialEq, Eq)]
pub struct TargetBalance {
    pub address: String,
    pub update_options: TargetBalanceUpdateParams,
}

/// A policy as a mathematical value.
pub struct TargetBalanceView {
    pub address: Seq<char>,
    pub update_options: TargetBalanceUpdateParams,
}

impl View for TargetBalance {
    type V = TargetBalanceView;

    open spec fn view(&self) -> TargetBalanceView {
        TargetBalanceView { address: self.address@, update_options: self.update_options }
    }
}

/// A list of policies as a sequence of mathematical values.
pub open spec fn policies_view(policies: Seq<TargetBalance>) -> Seq<TargetBalanceView> {
    policies.map_values(|p: TargetBalance| p@)
}

/// A policy may be written to the table when the host accepts its identity
/// and its threshold does not lie above its target.
pub open spec fn acceptable(policy: TargetBalanceView, accepted: Set<Seq<char>>) -> bool {
    accepted.contains(policy.address) && policy.update_options.valid()
}

impl TargetBalance {
    /// Checks the policy before it is written.
    pub fn validate(&self, api: &Api) -> (r: Result<(), ContractError>)
        ensures
            acceptable(self@, api@) ==> r == Ok::<(), ContractError>(()),
            !acceptable(self@, api@) ==> r == Err::<(), ContractError>(ContractError::InvalidPolicy),
    {
        if !api.addr_validate(self.address.as_str()) {
            return Err(ContractError::InvalidPolicy);
        }
        if self.update_options.threshold_balance > self.update_options.target_balance {
            return Err(ContractError::InvalidPolicy);
        }
        Ok(())
    }

    /// A copy of the policy.
    pub fn duplicate(&self) -> (copy: TargetBalance)
        ensures
            copy == *self,
    {
        TargetBalance { address: self.address.clone(), update_options: self.update_options }
    }
}

/// What the distributor starts with.
#[derive(Clone, Debug, PartialEq, Eq)]
pub struct InstantiateMsg {
    /// The owner; the sender of the message if none is named.
    pub owner: Option<String>,
    /// The policies that the table starts with.
    pub initial_target_balances: Vec<TargetBalance>,
    /// What a round does when the pool falls short; all or nothing if no mode
    /// is named.
    pub distribution_mode: Option<DistributionMode>,
}

/// Nothing is needed to migrate the distributor.
#[derive(Clone, Copy, Debug, PartialEq, Eq, Structural)]
pub struct MigrateMsg {}

/// What can be asked of the distributor.
#[derive(Clone, Debug, PartialEq, Eq)]
pub enum QueryMsg {
    /// All policies, in the order of the table.
    TargetBalances {},
    /// The policy of one recipient.
    TargetBalance { address: String },
    /// The current owner.
    Ownership {},
}

/// What the distributor can be told to do.
#[derive(Clone, Debug, PartialEq, Eq)]
pub enum ExecuteMsg {
    /// Offer, accept or renounce ownership.
    UpdateOwnership(Action),
    /// Run one round of distribution.
    Distribute {},
    /// Send `amount` from the pool to `recepient`: the whole pool if no amount
    /// is named, to the sender if no recipient is named.
    WithdrawTokens { recepient: Option<String>, amount: Option<u128> },
    /// Replace the whole table by these policies.
    SetTargetBalances { target_balances: Vec<TargetBalance> },
    /// Write these policies into the table.
    AddTargetBalances { target_balances: Vec<TargetBalance> },
    /// Take the policies of these recipients out of the table.
    RemoveTargetBalances { addresses: Vec<String> },
}

} // verus!
