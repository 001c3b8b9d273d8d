//! One round of distribution: which recipients are funded, and by how much.
//!
//! A recipient is funded when its balance is below its threshold. It is then
//! sent what it lacks to its target, plus its overshoot. Two modes decide what
//! happens when the pool cannot pay for everything: by default the round fails
//! as a whole; on request it pays, in table order, each recipient that the
//! rest of the pool still covers.

use crate::error::ContractError;
use crate::host::{balance_in, Querier};
use crate::msg::{policies_view, TargetBalance, TargetBalanceUpdateParams, TargetBalanceView};
use crate::table::{index_of, lemma_levels_at, TargetBalances};
use vstd::prelude::*;

verus! {

/// What a round does when the pool cannot pay for every recipient in need.
#[derive(Clone, Copy, Debug, PartialEq, Eq, Structural)]
pub enum DistributionMode {
    /// The round fails and nothing is sent.
    AllOrNothing,
    /// Recipients that the rest of the pool cannot cover are passed over.
    BestEffort,
}

impl Default for DistributionMode {
    fn default() -> (mode: DistributionMode)
        ensures
            mode == DistributionMode::AllOrNothing,
    {
        DistributionMode::AllOrNothing
    }
}

/// An instruction to send `amount` from the pool to `recipient`.
#[derive(Clone, Debug, PartialEq, Eq)]
pub struct Transfer {
    pub recipient: String,
    pub amount: u128,
}

/// A transfer as a mathematical value.
pub struct TransferView {
    pub recipient: Seq<char>,
    pub amount: nat,
}

impl View for Transfer {
    type V = TransferView;

    open spec fn view(&self) -> TransferView {
        TransferView { recipient: self.recipient@, amount: self.amount as nat }
    }
}

/// A list of transfers as a sequence of mathematical values.
pub open spec fn transfers_view(transfers: Seq<Transfer>) -> Seq<TransferView> {
    transfers.map_values(|t: Transfer| t@)
}

/// An account that holds `current` is funded under `options`.
pub open spec fn needs_top_up(options: TargetBalanceUpdateParams, current: u128) -> bool {
    current < options.threshold_balance
}

/// What an account that holds `current` lacks to its target.
pub open spec fn deficit(options: TargetBalanceUpdateParams, current: u128) -> nat {
    if options.target_balance >= current {
        (options.target_balance - current) as nat
    } else {
        0
    }
}

/// What is sent to an account that is funded while it holds `current`.
pub open spec fn funds_to_send(options: TargetBalanceUpdateParams, current: u128) -> nat {
    (deficit(options, current) + options.top_up_overshoot) as nat
}

/// The transfer that funds `policy` under `ledger`.
pub open spec fn top_up(policy: TargetBalanceView, ledger: Map<Seq<char>, u128>) -> TransferView {
    TransferView {
        recipient: policy.address,
        amount: funds_to_send(policy.update_options, balance_in(ledger, policy.address)),
    }
}

/// `policy` is funded under `ledger`.
pub open spec fn in_need(policy: TargetBalanceView, ledger: Map<Seq<char>, u128>) -> bool {
    needs_top_up(policy.update_options, balance_in(ledger, policy.address))
}

/// The transfers that fund every policy in need, in the order of the policies.
pub open spec fn candidates(
    policies: Seq<TargetBalanceView>,
    ledger: Map<Seq<char>, u128>,
) -> Seq<TransferView>
    decreases policies.len(),
{
    if policies.len() == 0 {
        Seq::empty()
    } else if in_need(policies.last(), ledger) {
        candidates(policies.drop_last(), ledger).push(top_up(policies.last(), ledger))
    } else {
        candidates(policies.drop_last(), ledger)
    }
}

/// The sum of the amounts of `transfers`.
pub open spec fn total(transfers: Seq<TransferView>) -> nat
    decreases transfers.len(),
{
    if transfers.len() == 0 {
        0
    } else {
        total(transfers.drop_last()) + transfers.last().amount
    }
}

/// The transfers of a best-effort round: going through the policies in order,
/// a policy in need is funded when what is left of `pool` covers its transfer.
pub open spec fn affordable(
    policies: Seq<TargetBalanceView>,
    ledger: Map<Seq<char>, u128>,
    pool: nat,
) -> Seq<TransferView>
    decreases policies.len(),
{
    if policies.len() == 0 {
        Seq::empty()
    } else {
        let earlier = affordable(policies.drop_last(), ledger, pool);
        let next = top_up(policies.last(), ledger);
        if in_need(policies.last(), ledger) && total(earlier) + next.amount <= pool {
            earlier.push(next)
        } else {
            earlier
        }
    }
}

/// What a round returns.
pub open spec fn round(
    policies: Seq<TargetBalanceView>,
    ledger: Map<Seq<char>, u128>,
    pool: nat,
    mode: DistributionMode,
) -> Result<Seq<TransferView>, ContractError> {
    match mode {
        DistributionMode::AllOrNothing => if total(candidates(policies, ledger)) <= pool {
            Ok(candidates(policies, ledger))
        } else {
            Err(ContractError::InsufficientFunds)
        },
        DistributionMode::BestEffort => Ok(affordable(policies, ledger, pool)),
    }
}

/// The result of a round as a mathematical value.
pub open spec fn round_view(r: Result<Vec<Transfer>, ContractError>) -> Result<
    Seq<TransferView>,
    ContractError,
> {
    match r {
        Ok(transfers) => Ok(transfers_view(transfers@)),
        Err(e) => Err(e),
    }
}

proof fn lemma_total_push(transfers: Seq<TransferView>, t: TransferView)
    ensures
        total(transfers.push(t)) == total(transfers) + t.amount,
{
    assert(transfers.push(t).drop_last() =~= transfers);
}

proof fn lemma_candidates_grow(
    policies: Seq<TargetBalanceView>,
    ledger: Map<Seq<char>, u128>,
    n: int,
)
    requires
        0 <= n <= policies.len(),
    ensures
        total(candidates(policies.take(n), ledger)) <= total(candidates(policies, ledger)),
    decreases policies.len(),
{
    if n == policies.len() {
        assert(policies.take(n) =~= policies);
    } else {
        lemma_candidates_grow(policies.drop_last(), ledger, n);
        assert(policies.drop_last().take(n) =~= policies.take(n));
        if in_need(policies.last(), ledger) {
            lemma_total_push(
                candidates(policies.drop_last(), ledger),
                top_up(policies.last(), ledger),
            );
        }
    }
}

/// What `policy` is sent when it holds `current`, if it is funded and the
/// amount is at most `limit`.
fn amount_within(options: &TargetBalanceUpdateParams, current: u128, limit: u128) -> (r: Option<
    u128,
>)
    ensures
        r == if needs_top_up(*options, current) && funds_to_send(*options, current) <= limit {
            Some(funds_to_send(*options, current) as u128)
        } else {
            None
        },
{
    if current >= options.threshold_balance {
        return None;
    }
    let lacking: u128 = if options.target_balance >= current {
        options.target_balance - current
    } else {
        0
    };
    match lacking.checked_add(options.top_up_overshoot) {
        Some(funds) => if funds <= limit {
            Some(funds)
        } else {
            None
        },
        None => None,
    }
}

/// A round in which the pool pays for every recipient in need, or for none.
pub fn distribute_all_or_nothing(
    policies: &Vec<TargetBalance>,
    querier: &Querier,
    pool_balance: u128,
) -> (r: Result<Vec<Transfer>, ContractError>)
    ensures
        round_view(r) == round(
            policies_view(policies@),
            querier@,
            pool_balance as nat,
            DistributionMode::AllOrNothing,
        ),
{
    let ghost all = policies_view(policies@);
    let mut transfers: Vec<Transfer> = Vec::new();
    let mut remaining: u128 = pool_balance;
    let mut i: usize = 0;
    assert(transfers_view(transfers@) =~= candidates(all.take(0), querier@));
    while i < policies.len()
        invariant
            i <= policies.len(),
            all == policies_view(policies@),
            transfers_view(transfers@) == candidates(all.take(i as int), querier@),
            total(candidates(all.take(i as int), querier@)) + remaining == pool_balance,
        decreases policies.len() - i,
    {
        let policy = &policies[i];
        let current: u128 = querier.query_balance(policy.address.as_str());
        let ghost earlier = candidates(all.take(i as int), querier@);
        proof {
            assert(all.take(i + 1).drop_last() =~= all.take(i as int));
            assert(all.take(i + 1).last() == policy@);
            lemma_total_push(earlier, top_up(policy@, querier@));
        }
        if current < policy.update_options.threshold_balance {
            match amount_within(&policy.update_options, current, remaining) {
                Some(funds) => {
                    let ghost sent = transfers@;
                    let transfer = Transfer { recipient: policy.address.clone(), amount: funds };
                    transfers.push(transfer);
                    remaining = remaining - funds;
                    assert(transfers_view(transfers@) =~= transfers_view(sent).push(transfer@));
                },
                None => {
                    proof {
                        lemma_candidates_grow(all, querier@, i + 1);
                    }
                    return Err(ContractError::InsufficientFunds);
                },
            }
        }
        i = i + 1;
    }
    assert(all.take(i as int) =~= all);
    Ok(transfers)
}

/// A round that pays, in the order of the policies, each recipient in need
/// that the rest of the pool covers.
pub fn distribute_best_effort(
    policies: &Vec<TargetBalance>,
    querier: &Querier,
    pool_balance: u128,
) -> (r: Result<Vec<Transfer>, ContractError>)
    ensures
        round_view(r) == round(
            policies_view(policies@),
            querier@,
            pool_balance as nat,
            DistributionMode::BestEffort,
        ),
{
    let ghost all = policies_view(policies@);
    let mut transfers: Vec<Transfer> = Vec::new();
    let mut remaining: u128 = pool_balance;
    let mut i: usize = 0;
    assert(transfers_view(transfers@) =~= affordable(all.take(0), querier@, pool_balance as nat));
    while i < policies.len()
        invariant
            i <= policies.len(),
            all == policies_view(policies@),
            transfers_view(transfers@) == affordable(
                all.take(i as int),
                querier@,
                pool_balance as nat,
            ),
            total(affordable(all.take(i as int), querier@, pool_balance as nat)) + remaining
                == pool_balance,
        decreases policies.len() - i,
    {
        let policy = &policies[i];
        let current: u128 = querier.query_balance(policy.address.as_str());
        let ghost earlier = affordable(all.take(i as int), querier@, pool_balance as nat);
        proof {
            assert(all.take(i + 1).drop_last() =~= all.take(i as int));
            assert(all.take(i + 1).last() == policy@);
            lemma_total_push(earlier, top_up(policy@, querier@));
        }
        match amount_within(&policy.update_options, current, remaining) {
            Some(funds) => {
                let ghost sent = transfers@;
                let transfer = Transfer { recipient: policy.address.clone(), amount: funds };
                transfers.push(transfer);
                remaining = remaining - funds;
                assert(transfers_view(transfers@) =~= transfers_view(sent).push(transfer@));
            },
            None => {},
        }
        i = i + 1;
    }
    assert(all.take(i as int) =~= all);
    Ok(transfers)
}

/// Every transfer among the candidates funds a policy in need.
pub proof fn lemma_candidates_justified(
    policies: Seq<TargetBalanceView>,
    ledger: Map<Seq<char>, u128>,
    k: int,
)
    requires
        0 <= k < candidates(policies, ledger).len(),
    ensures
        exists|j: int|
            0 <= j < policies.len() && in_need(#[trigger] policies[j], ledger) && candidates(
                policies,
                ledger,
            )[k] == top_up(policies[j], ledger),
    decreases policies.len(),
{
    let rest = policies.drop_last();
    if in_need(policies.last(), ledger) && k == candidates(rest, ledger).len() {
        assert(in_need(policies[policies.len() - 1], ledger));
    } else {
        lemma_candidates_justified(rest, ledger, k);
        let j = choose|j: int|
            0 <= j < rest.len() && in_need(#[trigger] rest[j], ledger) && candidates(rest, ledger)[k]
                == top_up(rest[j], ledger);
        assert(in_need(policies[j], ledger));
    }
}

/// Every policy in need is funded among the candidates.
pub proof fn lemma_candidates_complete(
    policies: Seq<TargetBalanceView>,
    ledger: Map<Seq<char>, u128>,
    j: int,
)
    requires
        0 <= j < policies.len(),
        in_need(policies[j], ledger),
    ensures
        exists|k: int|
            0 <= k < candidates(policies, ledger).len() && #[trigger] candidates(
                policies,
                ledger,
            )[k] == top_up(policies[j], ledger),
    decreases policies.len(),
{
    let rest = policies.drop_last();
    let all = candidates(policies, ledger);
    if j == policies.len() - 1 {
        assert(all[all.len() - 1] == top_up(policies[j], ledger));
    } else {
        lemma_candidates_complete(rest, ledger, j);
        let k = choose|k: int|
            0 <= k < candidates(rest, ledger).len() && #[trigger] candidates(rest, ledger)[k]
                == top_up(rest[j], ledger);
        assert(all[k] == top_up(policies[j], ledger));
    }
}

/// Every transfer of a best-effort round funds a policy in need.
pub proof fn lemma_affordable_justified(
    policies: Seq<TargetBalanceView>,
    ledger: Map<Seq<char>, u128>,
    pool: nat,
    k: int,
)
    requires
        0 <= k < affordable(policies, ledger, pool).len(),
    ensures
        exists|j: int|
            0 <= j < policies.len() && in_need(#[trigger] policies[j], ledger) && affordable(
                policies,
                ledger,
                pool,
            )[k] == top_up(policies[j], ledger),
    decreases policies.len(),
{
    let rest = policies.drop_last();
    let earlier = affordable(rest, ledger, pool);
    if k == earlier.len() {
        assert(in_need(policies[policies.len() - 1], ledger));
    } else {
        lemma_affordable_justified(rest, ledger, pool, k);
        let j = choose|j: int|
            0 <= j < rest.len() && in_need(#[trigger] rest[j], ledger) && earlier[k] == top_up(
                rest[j],
                ledger,
            );
        assert(in_need(policies[j], ledger));
    }
}

/// A best-effort round never sends more than the pool holds.
pub proof fn lemma_affordable_within_pool(
    policies: Seq<TargetBalanceView>,
    ledger: Map<Seq<char>, u128>,
    pool: nat,
)
    ensures
        total(affordable(policies, ledger, pool)) <= pool,
    decreases policies.len(),
{
    if policies.len() > 0 {
        lemma_affordable_within_pool(policies.drop_last(), ledger, pool);
        lemma_total_push(
            affordable(policies.drop_last(), ledger, pool),
            top_up(policies.last(), ledger),
        );
    }
}

/// `transfer` is what its recipient is owed: the table holds a policy for the
/// recipient, the recipient is below its threshold, and the amount is what it
/// lacks to its target plus its overshoot.
pub open spec fn owed(
    table: Map<Seq<char>, TargetBalanceUpdateParams>,
    ledger: Map<Seq<char>, u128>,
    transfer: TransferView,
) -> bool {
    &&& table.contains_key(transfer.recipient)
    &&& needs_top_up(table[transfer.recipient], balance_in(ledger, transfer.recipient))
    &&& transfer.amount == funds_to_send(
        table[transfer.recipient],
        balance_in(ledger, transfer.recipient),
    )
}

/// Computes the transfers of one round over the table. `querier` says what
/// each recipient holds, `pool_balance` what the pool holds; nothing is sent
/// here.
pub fn distribute(
    table: &TargetBalances,
    querier: &Querier,
    pool_balance: u128,
    mode: DistributionMode,
) -> (r: Result<Vec<Transfer>, ContractError>)
    ensures
        round_view(r) == round(table.policies(), querier@, pool_balance as nat, mode),
        // A round sends only what is owed, so nothing to a recipient at or
        // above its threshold.
        r is Ok ==> forall|k: int|
            0 <= k < r->Ok_0@.len() ==> owed(table@, querier@, (#[trigger] r->Ok_0@[k])@),
        r is Ok ==> forall|k: int, address: Seq<char>|
            0 <= k < r->Ok_0@.len() && #[trigger] table@.contains_key(address) && !needs_top_up(
                table@[address],
                balance_in(querier@, address),
            ) ==> (#[trigger] r->Ok_0@[k])@.recipient != address,
        // A round that pays for all or nothing sends every recipient below its
        // threshold exactly what it is owed.
        r is Ok && mode == DistributionMode::AllOrNothing ==> forall|address: Seq<char>|
            #[trigger] table@.contains_key(address) && needs_top_up(
                table@[address],
                balance_in(querier@, address),
            ) ==> exists|k: int|
                0 <= k < r->Ok_0@.len() && (#[trigger] r->Ok_0@[k])@ == (TransferView {
                    recipient: address,
                    amount: funds_to_send(table@[address], balance_in(querier@, address)),
                }),
        // What a round sends never exceeds the pool.
        r is Ok ==> total(transfers_view(r->Ok_0@)) <= pool_balance,
        r is Err ==> r == Err::<Vec<Transfer>, ContractError>(ContractError::InsufficientFunds)
            && mode == DistributionMode::AllOrNothing && total(
            candidates(table.policies(), querier@),
        ) > pool_balance,
{
    let policies = table.as_vec();
    let r = match mode {
        DistributionMode::AllOrNothing => distribute_all_or_nothing(
            policies,
            querier,
            pool_balance,
        ),
        DistributionMode::BestEffort => distribute_best_effort(policies, querier, pool_balance),
    };
    proof {
        let all = table.policies();
        let pool = pool_balance as nat;
        use_type_invariant(table);
        table.lemma_view();
        lemma_affordable_within_pool(all, querier@, pool);
        if r is Ok {
            let sent = transfers_view(r->Ok_0@);
            assert forall|k: int| 0 <= k < r->Ok_0@.len() implies owed(
                table@,
                querier@,
                (#[trigger] r->Ok_0@[k])@,
            ) by {
                assert(sent[k] == r->Ok_0@[k]@);
                if mode == DistributionMode::AllOrNothing {
                    lemma_candidates_justified(all, querier@, k);
                } else {
                    lemma_affordable_justified(all, querier@, pool, k);
                }
                let j = choose|j: int|
                    0 <= j < all.len() && in_need(#[trigger] all[j], querier@) && sent[k] == top_up(
                        all[j],
                        querier@,
                    );
                lemma_levels_at(all, j);
            }
            if mode == DistributionMode::AllOrNothing {
                assert forall|address: Seq<char>|
                    #[trigger] table@.contains_key(address) && needs_top_up(
                        table@[address],
                        balance_in(querier@, address),
                    ) implies exists|k: int|
                    0 <= k < r->Ok_0@.len() && (#[trigger] r->Ok_0@[k])@ == (TransferView {
                        recipient: address,
                        amount: funds_to_send(table@[address], balance_in(querier@, address)),
                    }) by {
                    let j = index_of(all, address);
                    lemma_levels_at(all, j);
                    lemma_candidates_complete(all, querier@, j);
                    let k = choose|k: int|
                        0 <= k < sent.len() && #[trigger] sent[k] == top_up(all[j], querier@);
                    assert(r->Ok_0@[k]@ == sent[k]);
                }
            }
        }
    }
    r
}

} // verus!
