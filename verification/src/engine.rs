//! What only the owner may do: change the table of policies, and withdraw
//! from the pool.

use crate::distribute::{Transfer, TransferView};
use crate::error::ContractError;
use crate::host::Api;
use crate::msg::{acceptable, policies_view, TargetBalance, TargetBalanceUpdateParams, TargetBalanceView};
use crate::ownership::{assert_owner, owner_check, Ownership, OwnershipView};
use crate::table::{addresses_view, with_all, without_all, TargetBalances};
use vstd::prelude::*;

verus! {

/// A change to the table of policies.
#[derive(Clone, Debug, PartialEq, Eq)]
pub enum PolicyChange {
    /// Write these policies, each in place of its recipient's earlier policy.
    Add(Vec<TargetBalance>),
    /// Take out the policies of these recipients.
    Remove(Vec<String>),
    /// Drop the whole table and write these policies.
    Replace(Vec<TargetBalance>),
}

/// Every policy of the list may be written to the table.
pub open spec fn all_acceptable(policies: Seq<TargetBalanceView>, accepted: Set<Seq<char>>) -> bool {
    forall|i: int| 0 <= i < policies.len() ==> acceptable(#[trigger] policies[i], accepted)
}

/// Checks every policy of a list before any of them is written.
pub fn validate_all(policies: &Vec<TargetBalance>, api: &Api) -> (r: Result<(), ContractError>)
    ensures
        all_acceptable(policies_view(policies@), api@) ==> r == Ok::<(), ContractError>(()),
        !all_acceptable(policies_view(policies@), api@) ==> r == Err::<(), ContractError>(
            ContractError::InvalidPolicy,
        ),
{
    let mut i: usize = 0;
    while i < policies.len()
        invariant
            i <= policies.len(),
            forall|j: int| 0 <= j < i ==> acceptable(#[trigger] policies_view(policies@)[j], api@),
        decreases policies.len() - i,
    {
        assert(policies_view(policies@)[i as int] == policies@[i as int]@);
        match policies[i].validate(api) {
            Ok(_) => {},
            Err(e) => {
                return Err(e);
            },
        }
        i = i + 1;
    }
    Ok(())
}

/// The levels of the table after `change`, or the reason for which the change
/// is refused.
pub open spec fn after_change(
    table: Map<Seq<char>, TargetBalanceUpdateParams>,
    accepted: Set<Seq<char>>,
    change: PolicyChange,
) -> Result<Map<Seq<char>, TargetBalanceUpdateParams>, ContractError> {
    match change {
        PolicyChange::Add(policies) => if all_acceptable(policies_view(policies@), accepted) {
            Ok(with_all(table, policies_view(policies@)))
        } else {
            Err(ContractError::InvalidPolicy)
        },
        PolicyChange::Remove(addresses) => match without_all(table, addresses_view(addresses@)) {
            Some(rest) => Ok(rest),
            None => Err(ContractError::UnknownTarget),
        },
        PolicyChange::Replace(policies) => if all_acceptable(policies_view(policies@), accepted) {
            Ok(with_all(Map::empty(), policies_view(policies@)))
        } else {
            Err(ContractError::InvalidPolicy)
        },
    }
}

/// The levels of the table after `caller` has asked for `change`.
pub open spec fn after_set_policies(
    ownership: OwnershipView,
    caller: Seq<char>,
    table: Map<Seq<char>, TargetBalanceUpdateParams>,
    accepted: Set<Seq<char>>,
    change: PolicyChange,
) -> Result<Map<Seq<char>, TargetBalanceUpdateParams>, ContractError> {
    match owner_check(ownership, caller) {
        Err(e) => Err(e),
        Ok(_) => after_change(table, accepted, change),
    }
}

/// Changes the table on behalf of `caller`. Only the owner may do so, every
/// policy that is written must be acceptable, and every recipient that is
/// removed must have a policy. A refused change leaves the table as it was.
pub fn set_policies(
    ownership: &Ownership,
    caller: &str,
    api: &Api,
    table: &mut TargetBalances,
    change: &PolicyChange,
) -> (r: Result<(), ContractError>)
    ensures
        final(table).wf(),
        match after_set_policies(ownership@, caller@, old(table)@, api@, *change) {
            Ok(levels) => r == Ok::<(), ContractError>(()) && final(table)@ == levels,
            Err(e) => r == Err::<(), ContractError>(e) && *final(table) == *old(table),
        },
{
    proof {
        use_type_invariant(&*table);
    }
    match assert_owner(ownership, caller) {
        Err(e) => {
            return Err(e);
        },
        Ok(_) => {},
    }
    match change {
        PolicyChange::Add(policies) => {
            match validate_all(policies, api) {
                Err(e) => {
                    return Err(e);
                },
                Ok(_) => {},
            }
            table.set_all(policies);
            Ok(())
        },
        PolicyChange::Remove(addresses) => table.remove_all(addresses),
        PolicyChange::Replace(policies) => {
            match validate_all(policies, api) {
                Err(e) => {
                    return Err(e);
                },
                Ok(_) => {},
            }
            *table = TargetBalances::from_policies(policies);
            Ok(())
        },
    }
}

/// The transfer that `caller` obtains by asking for `requested` from a pool
/// of `pool`, or the reason for which it is refused.
pub open spec fn withdrawal(
    ownership: OwnershipView,
    caller: Seq<char>,
    pool: u128,
    requested: Option<u128>,
    recipient: Option<Seq<char>>,
) -> Result<TransferView, ContractError> {
    let amount = match requested {
        Some(a) => a,
        None => pool,
    };
    match owner_check(ownership, caller) {
        Err(e) => Err(e),
        Ok(_) => if amount > pool {
            Err(ContractError::InsufficientFunds)
        } else {
            Ok(
                TransferView {
                    recipient: match recipient {
                        Some(r) => r,
                        None => caller,
                    },
                    amount: amount as nat,
                },
            )
        },
    }
}

/// The result of a withdrawal as a mathematical value.
pub open spec fn withdrawal_view(r: Result<Transfer, ContractError>) -> Result<
    TransferView,
    ContractError,
> {
    match r {
        Ok(t) => Ok(t@),
        Err(e) => Err(e),
    }
}

/// A recipient that may be left out, as a mathematical value.
pub open spec fn recipient_view(recipient: Option<String>) -> Option<Seq<char>> {
    match recipient {
        Some(r) => Some(r@),
        None => None,
    }
}

/// Withdraws from the pool on behalf of `caller`, who must be the owner.
/// Without an amount the whole pool is withdrawn; without a recipient the
/// caller receives it. The table is not touched.
pub fn withdraw(
    ownership: &Ownership,
    caller: &str,
    pool_balance: u128,
    requested_amount: Option<u128>,
    recipient: Option<String>,
) -> (r: Result<Transfer, ContractError>)
    ensures
        withdrawal_view(r) == withdrawal(
            ownership@,
            caller@,
            pool_balance,
            requested_amount,
            recipient_view(recipient),
        ),
        // The owner who names neither amount nor recipient receives the whole
        // pool.
        ownership@.owner == Some(caller@) && requested_amount is None && recipient is None ==> r is Ok
            && r->Ok_0@ == (TransferView { recipient: caller@, amount: pool_balance as nat }),
        // The owner who asks for more than the pool holds receives nothing.
        ownership@.owner == Some(caller@) && requested_amount is Some && requested_amount->Some_0
            > pool_balance ==> r == Err::<Transfer, ContractError>(ContractError::InsufficientFunds),
{
    match assert_owner(ownership, caller) {
        Err(e) => {
            return Err(e);
        },
        Ok(_) => {},
    }
    let amount: u128 = match requested_amount {
        Some(a) => a,
        None => pool_balance,
    };
    if amount > pool_balance {
        return Err(ContractError::InsufficientFunds);
    }
    let to: String = match recipient {
        Some(r) => r,
        None => caller.to_owned(),
    };
    Ok(Transfer { recipient: to, amount })
}

} // verus!
