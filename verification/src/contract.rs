//! The entry points of the distributor. Each takes the stored state, what the
//! host reported for the invocation and a message, and returns the answer;
//! `execute` also updates the state. A refused message changes nothing.

use crate::answer::{
    attr, attributes_view, event_name, messages_view, response, response_view, Attribute,
    AttributeView, EventView, Response, ResponseView, SendMsg, SendMsgView,
};
use crate::decimal::{decimal_digits, to_decimal};
use crate::distribute::{distribute, round, transfers_view, DistributionMode, Transfer, TransferView};
use crate::engine::{
    after_set_policies, all_acceptable, recipient_view, set_policies, validate_all, withdraw,
    withdrawal, PolicyChange,
};
use crate::error::ContractError;
use crate::host::{balance_in, Api, Env, MessageInfo, Querier, UNTRN_DENOM};
use crate::msg::{policies_view, ExecuteMsg, InstantiateMsg, QueryMsg, TargetBalance, TargetBalanceView};
use crate::ownership::{
    after_action, identity_view, initial, initialize_owner, update_ownership, Action, Ownership,
};
use crate::table::{addresses_view, with_all, TargetBalances};
use vstd::prelude::*;

verus! {

/// The name under which the distributor emits its events.
pub const CONTRACT_NAME: &'static str = "crates.io:drop-helper__drop-gas-distributor";

/// What the host reported for the invocation.
#[derive(Clone, Debug, PartialEq, Eq)]
pub struct Deps {
    pub api: Api,
    pub querier: Querier,
}

/// What the distributor keeps between invocations.
#[derive(Clone, Debug, PartialEq, Eq)]
pub struct State {
    pub ownership: Ownership,
    pub target_balances: TargetBalances,
    pub mode: DistributionMode,
}

/// The answer to a query.
#[derive(Clone, Debug, PartialEq, Eq)]
pub enum QueryResponse {
    TargetBalances(Vec<TargetBalance>),
    TargetBalance(TargetBalance),
    Ownership(Option<String>),
}

/// The result of an entry point as a mathematical value.
pub open spec fn outcome_view(r: Result<Response, ContractError>) -> Result<
    ResponseView,
    ContractError,
> {
    match r {
        Ok(response) => Ok(response@),
        Err(e) => Err(e),
    }
}

/// One attribute for each of `values`, all under `key`.
pub open spec fn keyed(key: Seq<char>, values: Seq<Seq<char>>) -> Seq<AttributeView> {
    values.map_values(|v: Seq<char>| AttributeView { key, value: v })
}

/// The recipients of a list of policies, in its order.
pub open spec fn recipients(policies: Seq<TargetBalanceView>) -> Seq<Seq<char>> {
    policies.map_values(|p: TargetBalanceView| p.address)
}

fn recipient_attrs(key: &str, policies: &Vec<TargetBalance>) -> (attrs: Vec<Attribute>)
    ensures
        attributes_view(attrs@) == keyed(key@, recipients(policies_view(policies@))),
{
    let mut attrs: Vec<Attribute> = Vec::new();
    let mut i: usize = 0;
    while i < policies.len()
        invariant
            i <= policies.len(),
            attrs@.len() == i,
            forall|j: int|
                0 <= j < i ==> (#[trigger] attrs@[j])@ == (AttributeView {
                    key: key@,
                    value: policies@[j].address@,
                }),
        decreases policies.len() - i,
    {
        attrs.push(attr(key, policies[i].address.as_str()));
        i = i + 1;
    }
    assert(attributes_view(attrs@) =~= keyed(key@, recipients(policies_view(policies@))));
    attrs
}

fn address_attrs(key: &str, addresses: &Vec<String>) -> (attrs: Vec<Attribute>)
    ensures
        attributes_view(attrs@) == keyed(key@, addresses_view(addresses@)),
{
    let mut attrs: Vec<Attribute> = Vec::new();
    let mut i: usize = 0;
    while i < addresses.len()
        invariant
            i <= addresses.len(),
            attrs@.len() == i,
            forall|j: int|
                0 <= j < i ==> (#[trigger] attrs@[j])@ == (AttributeView {
                    key: key@,
                    value: addresses@[j]@,
                }),
        decreases addresses.len() - i,
    {
        attrs.push(attr(key, addresses[i].as_str()));
        i = i + 1;
    }
    assert(attributes_view(attrs@) =~= keyed(key@, addresses_view(addresses@)));
    attrs
}

/// The state and the answer with which the distributor starts, or the reason
/// for which it does not start.
pub open spec fn instantiate_outcome(deps: &Deps, info: &MessageInfo, msg: &InstantiateMsg) -> Result<
    ResponseView,
    ContractError,
> {
    let owner = match msg.owner {
        Some(o) => o@,
        None => info.sender@,
    };
    if deps.api@.contains(owner) && all_acceptable(
        policies_view(msg.initial_target_balances@),
        deps.api@,
    ) {
        Ok(
            response_view(
                "instantiate"@,
                CONTRACT_NAME@,
                keyed("add-target-balance"@, recipients(policies_view(msg.initial_target_balances@))),
            ),
        )
    } else {
        Err(ContractError::InvalidPolicy)
    }
}

/// Starts the distributor: the owner is the one that the message names, or
/// else its sender; the table holds the policies of the message. An owner or
/// a policy that is not acceptable is refused.
pub fn instantiate(deps: &Deps, info: &MessageInfo, msg: InstantiateMsg) -> (r: Result<
    (State, Response),
    ContractError,
>)
    ensures
        match instantiate_outcome(deps, info, &msg) {
            Ok(answer) => {
                &&& r is Ok
                &&& r->Ok_0.1@ == answer
                &&& r->Ok_0.0.ownership@ == initial(
                    Some(
                        match msg.owner {
                            Some(o) => o@,
                            None => info.sender@,
                        },
                    ),
                )
                &&& r->Ok_0.0.target_balances.wf()
                &&& r->Ok_0.0.target_balances@ == with_all(
                    Map::empty(),
                    policies_view(msg.initial_target_balances@),
                )
                &&& r->Ok_0.0.mode == match msg.distribution_mode {
                    Some(m) => m,
                    None => DistributionMode::AllOrNothing,
                }
            },
            Err(e) => r == Err::<(State, Response), ContractError>(e),
        },
{
    let ownership = match &msg.owner {
        Some(o) => initialize_owner(&deps.api, Some(o.as_str())),
        None => initialize_owner(&deps.api, Some(info.sender.as_str())),
    };
    let ownership = match ownership {
        Ok(o) => o,
        Err(e) => {
            return Err(e);
        },
    };
    match validate_all(&msg.initial_target_balances, &deps.api) {
        Ok(_) => {},
        Err(e) => {
            return Err(e);
        },
    }
    let attrs = recipient_attrs("add-target-balance", &msg.initial_target_balances);
    let target_balances = TargetBalances::from_policies(&msg.initial_target_balances);
    let mode = match msg.distribution_mode {
        Some(m) => m,
        None => DistributionMode::AllOrNothing,
    };
    let state = State { ownership, target_balances, mode };
    Ok((state, response("instantiate", CONTRACT_NAME, attrs)))
}

/// The answer to a round that sends `transfers`: one bank instruction for each
/// transfer, in their order, and an event that pairs each recipient with the
/// amount it is sent.
pub open spec fn distribute_response(transfers: Seq<TransferView>) -> ResponseView {
    ResponseView {
        messages: transfers.map_values(
            |t: TransferView|
                SendMsgView { to_address: t.recipient, denom: UNTRN_DENOM@, amount: t.amount },
        ),
        events: seq![
            EventView {
                ty: event_name(CONTRACT_NAME@, "execute-distribute"@),
                attributes: transfers.map_values(
                    |t: TransferView|
                        AttributeView { key: t.recipient, value: decimal_digits(t.amount) },
                ),
            },
        ],
    }
}

/// What a round of distribution answers.
pub open spec fn distribute_outcome(state: &State, deps: &Deps, env: &Env) -> Result<
    ResponseView,
    ContractError,
> {
    match round(
        state.target_balances.policies(),
        deps.querier@,
        balance_in(deps.querier@, env.contract_address@) as nat,
        state.mode,
    ) {
        Ok(transfers) => Ok(distribute_response(transfers)),
        Err(e) => Err(e),
    }
}

/// Runs one round of distribution from the pool that the contract's own
/// account holds, in the mode that the state names.
pub fn execute_distribute(state: &State, deps: &Deps, env: &Env) -> (r: Result<
    Response,
    ContractError,
>)
    ensures
        outcome_view(r) == distribute_outcome(state, deps, env),
{
    let pool: u128 = deps.querier.query_balance(env.contract_address.as_str());
    let transfers = match distribute(&state.target_balances, &deps.querier, pool, state.mode) {
        Ok(t) => t,
        Err(e) => {
            return Err(e);
        },
    };
    let mut messages: Vec<SendMsg> = Vec::new();
    let mut attrs: Vec<Attribute> = Vec::new();
    let mut i: usize = 0;
    while i < transfers.len()
        invariant
            i <= transfers.len(),
            messages@.len() == i,
            attrs@.len() == i,
            forall|j: int|
                0 <= j < i ==> (#[trigger] messages@[j])@ == (SendMsgView {
                    to_address: transfers@[j].recipient@,
                    denom: UNTRN_DENOM@,
                    amount: transfers@[j].amount as nat,
                }),
            forall|j: int|
                0 <= j < i ==> (#[trigger] attrs@[j])@ == (AttributeView {
                    key: transfers@[j].recipient@,
                    value: decimal_digits(transfers@[j].amount as nat),
                }),
        decreases transfers.len() - i,
    {
        let amount: u128 = transfers[i].amount;
        let written = to_decimal(amount);
        messages.push(
            SendMsg {
                to_address: transfers[i].recipient.clone(),
                denom: UNTRN_DENOM.to_owned(),
                amount,
            },
        );
        attrs.push(attr(transfers[i].recipient.as_str(), written.as_str()));
        i = i + 1;
    }
    let r = response("execute-distribute", CONTRACT_NAME, attrs).add_messages(messages);
    proof {
        let expected = distribute_response(transfers_view(transfers@));
        assert(r@.messages =~= expected.messages);
        assert(attributes_view(attrs@) =~= expected.events[0].attributes);
        assert(r@.events =~= expected.events);
    }
    Ok(r)
}

/// The answer to a withdrawal that sends `transfer`.
pub open spec fn withdraw_response(transfer: TransferView) -> ResponseView {
    ResponseView {
        messages: seq![
            SendMsgView {
                to_address: transfer.recipient,
                denom: UNTRN_DENOM@,
                amount: transfer.amount,
            },
        ],
        events: seq![
            EventView {
                ty: event_name(CONTRACT_NAME@, "execute-withdraw-tokens"@),
                attributes: Seq::empty(),
            },
        ],
    }
}

/// What a withdrawal answers.
pub open spec fn withdraw_outcome(
    state: &State,
    deps: &Deps,
    env: &Env,
    info: &MessageInfo,
    amount: Option<u128>,
    recepient: Option<String>,
) -> Result<ResponseView, ContractError> {
    match withdrawal(
        state.ownership@,
        info.sender@,
        balance_in(deps.querier@, env.contract_address@),
        amount,
        recipient_view(recepient),
    ) {
        Ok(transfer) => Ok(withdraw_response(transfer)),
        Err(e) => Err(e),
    }
}

/// Withdraws from the pool that the contract's own account holds, on behalf
/// of the sender.
pub fn execute_withdraw_tokens(
    state: &State,
    deps: &Deps,
    env: &Env,
    info: &MessageInfo,
    amount: Option<u128>,
    recepient: Option<String>,
) -> (r: Result<Response, ContractError>)
    ensures
        outcome_view(r) == withdraw_outcome(state, deps, env, info, amount, recepient),
{
    let pool: u128 = deps.querier.query_balance(env.contract_address.as_str());
    let transfer = match withdraw(&state.ownership, info.sender.as_str(), pool, amount, recepient) {
        Ok(t) => t,
        Err(e) => {
            return Err(e);
        },
    };
    let message = SendMsg {
        to_address: transfer.recipient,
        denom: UNTRN_DENOM.to_owned(),
        amount: transfer.amount,
    };
    let r = response("execute-withdraw-tokens", CONTRACT_NAME, Vec::new()).add_message(message);
    proof {
        let expected = withdraw_response(transfer@);
        assert(attributes_view(Seq::<Attribute>::empty()) =~= Seq::<AttributeView>::empty());
        assert(r@.messages =~= expected.messages);
        assert(r@.events =~= expected.events);
    }
    Ok(r)
}

/// The name of the invocation that asks for `change`.
pub open spec fn change_name(change: PolicyChange) -> Seq<char> {
    match change {
        PolicyChange::Add(_) => "execute-add-target-balances"@,
        PolicyChange::Remove(_) => "execute-remove-target-balances"@,
        PolicyChange::Replace(_) => "execute-set-target-balances"@,
    }
}

/// The attributes that record `change`: one for each recipient that it names,
/// in the order of the message.
pub open spec fn change_attributes(change: PolicyChange) -> Seq<AttributeView> {
    match change {
        PolicyChange::Add(policies) => keyed(
            "add-target-balance"@,
            recipients(policies_view(policies@)),
        ),
        PolicyChange::Remove(addresses) => keyed(
            "remove-target-balance"@,
            addresses_view(addresses@),
        ),
        PolicyChange::Replace(policies) => keyed(
            "set-target-balance"@,
            recipients(policies_view(policies@)),
        ),
    }
}

/// How the state and the answer of a change to the table relate to the state
/// before it.
pub open spec fn change_post(
    before: State,
    after: State,
    deps: &Deps,
    info: &MessageInfo,
    change: PolicyChange,
    r: Result<Response, ContractError>,
) -> bool {
    match after_set_policies(
        before.ownership@,
        info.sender@,
        before.target_balances@,
        deps.api@,
        change,
    ) {
        Ok(levels) => {
            &&& r is Ok
            &&& r->Ok_0@ == response_view(
                change_name(change),
                CONTRACT_NAME@,
                change_attributes(change),
            )
            &&& after.target_balances@ == levels
            &&& after.ownership == before.ownership
            &&& after.mode == before.mode
        },
        Err(e) => r == Err::<Response, ContractError>(e) && after == before,
    }
}

/// Changes the table on behalf of the sender, who must be the owner.
pub fn execute_change(state: &mut State, deps: &Deps, info: &MessageInfo, change: PolicyChange) -> (r:
    Result<Response, ContractError>)
    ensures
        final(state).target_balances.wf(),
        change_post(*old(state), *final(state), deps, info, change, r),
{
    match set_policies(
        &state.ownership,
        info.sender.as_str(),
        &deps.api,
        &mut state.target_balances,
        &change,
    ) {
        Ok(_) => {},
        Err(e) => {
            return Err(e);
        },
    }
    match &change {
        PolicyChange::Add(policies) => Ok(
            response(
                "execute-add-target-balances",
                CONTRACT_NAME,
                recipient_attrs("add-target-balance", policies),
            ),
        ),
        PolicyChange::Remove(addresses) => Ok(
            response(
                "execute-remove-target-balances",
                CONTRACT_NAME,
                address_attrs("remove-target-balance", addresses),
            ),
        ),
        PolicyChange::Replace(policies) => Ok(
            response(
                "execute-set-target-balances",
                CONTRACT_NAME,
                recipient_attrs("set-target-balance", policies),
            ),
        ),
    }
}

/// Replaces the whole table by `target_balances` on behalf of the sender, who
/// must be the owner.
pub fn execute_set_target_balances(
    state: &mut State,
    deps: &Deps,
    info: &MessageInfo,
    target_balances: Vec<TargetBalance>,
) -> (r: Result<Response, ContractError>)
    ensures
        final(state).target_balances.wf(),
        change_post(
            *old(state),
            *final(state),
            deps,
            info,
            PolicyChange::Replace(target_balances),
            r,
        ),
{
    execute_change(state, deps, info, PolicyChange::Replace(target_balances))
}

/// How the state and the answer of a change of ownership relate to the state
/// before it.
pub open spec fn ownership_post(
    before: State,
    after: State,
    deps: &Deps,
    env: &Env,
    info: &MessageInfo,
    action: Action,
    r: Result<Response, ContractError>,
) -> bool {
    match after_action(before.ownership@, deps.api@, env.block, info.sender@, action@) {
        Ok(next) => {
            &&& r is Ok
            &&& r->Ok_0@ == response_view(
                "execute-update-ownership"@,
                CONTRACT_NAME@,
                Seq::empty(),
            )
            &&& after.ownership@ == next
            &&& after.target_balances == before.target_balances
            &&& after.mode == before.mode
        },
        Err(e) => r == Err::<Response, ContractError>(e) && after == before,
    }
}

/// Offers, accepts or renounces ownership on behalf of the sender.
pub fn execute_update_ownership(
    state: &mut State,
    deps: &Deps,
    env: &Env,
    info: &MessageInfo,
    action: Action,
) -> (r: Result<Response, ContractError>)
    ensures
        ownership_post(*old(state), *final(state), deps, env, info, action, r),
{
    match update_ownership(&mut state.ownership, &deps.api, &env.block, info.sender.as_str(), action) {
        Ok(_) => {},
        Err(e) => {
            return Err(e);
        },
    }
    let r = response("execute-update-ownership", CONTRACT_NAME, Vec::new());
    assert(attributes_view(Seq::<Attribute>::empty()) =~= Seq::<AttributeView>::empty());
    Ok(r)
}

/// How the state and the answer of `execute` relate to the state before it.
pub open spec fn execute_post(
    before: State,
    after: State,
    deps: &Deps,
    env: &Env,
    info: &MessageInfo,
    msg: ExecuteMsg,
    r: Result<Response, ContractError>,
) -> bool {
    match msg {
        ExecuteMsg::UpdateOwnership(action) => ownership_post(
            before,
            after,
            deps,
            env,
            info,
            action,
            r,
        ),
        ExecuteMsg::Distribute {  } => after == before && outcome_view(r) == distribute_outcome(
            &before,
            deps,
            env,
        ),
        ExecuteMsg::WithdrawTokens { recepient, amount } => after == before && outcome_view(r)
            == withdraw_outcome(&before, deps, env, info, amount, recepient),
        ExecuteMsg::SetTargetBalances { target_balances } => change_post(
            before,
            after,
            deps,
            info,
            PolicyChange::Replace(target_balances),
            r,
        ),
        ExecuteMsg::AddTargetBalances { target_balances } => change_post(
            before,
            after,
            deps,
            info,
            PolicyChange::Add(target_balances),
            r,
        ),
        ExecuteMsg::RemoveTargetBalances { addresses } => change_post(
            before,
            after,
            deps,
            info,
            PolicyChange::Remove(addresses),
            r,
        ),
    }
}

/// Carries out `msg` on behalf of its sender.
pub fn execute(state: &mut State, deps: &Deps, env: &Env, info: &MessageInfo, msg: ExecuteMsg) -> (r:
    Result<Response, ContractError>)
    ensures
        final(state).target_balances.wf(),
        execute_post(*old(state), *final(state), deps, env, info, msg, r),
{
    proof {
        use_type_invariant(&state.target_balances);
    }
    match msg {
        ExecuteMsg::UpdateOwnership(action) => execute_update_ownership(
            state,
            deps,
            env,
            info,
            action,
        ),
        ExecuteMsg::Distribute {  } => execute_distribute(state, deps, env),
        ExecuteMsg::WithdrawTokens { recepient, amount } => execute_withdraw_tokens(
            state,
            deps,
            env,
            info,
            amount,
            recepient,
        ),
        ExecuteMsg::SetTargetBalances { target_balances } => execute_set_target_balances(
            state,
            deps,
            info,
            target_balances,
        ),
        ExecuteMsg::AddTargetBalances { target_balances } => execute_change(
            state,
            deps,
            info,
            PolicyChange::Add(target_balances),
        ),
        ExecuteMsg::RemoveTargetBalances { addresses } => execute_change(
            state,
            deps,
            info,
            PolicyChange::Remove(addresses),
        ),
    }
}

/// The policy of `address`, or `UnknownTarget` if the table holds none.
pub fn query_target_balance(state: &State, address: &str) -> (r: Result<
    QueryResponse,
    ContractError,
>)
    ensures
        state.target_balances@.contains_key(address@) ==> r is Ok && r->Ok_0
            is TargetBalance && r->Ok_0->TargetBalance_0@ == (TargetBalanceView {
            address: address@,
            update_options: state.target_balances@[address@],
        }),
        !state.target_balances@.contains_key(address@) ==> r == Err::<QueryResponse, ContractError>(
            ContractError::UnknownTarget,
        ),
{
    match state.target_balances.get(address) {
        Some(policy) => Ok(QueryResponse::TargetBalance(policy)),
        None => Err(ContractError::UnknownTarget),
    }
}

/// All policies, in ascending order of their recipients.
pub fn query_target_balances(state: &State) -> (r: Result<QueryResponse, ContractError>)
    ensures
        r is Ok,
        r->Ok_0 is TargetBalances,
        policies_view(r->Ok_0->TargetBalances_0@) == state.target_balances.policies(),
{
    Ok(QueryResponse::TargetBalances(state.target_balances.to_vec()))
}

/// How the answer to a query relates to the state.
pub open spec fn query_post(state: &State, msg: QueryMsg, r: Result<QueryResponse, ContractError>) -> bool {
    match msg {
        QueryMsg::TargetBalances {  } => {
            &&& r is Ok
            &&& r->Ok_0 is TargetBalances
            &&& policies_view(r->Ok_0->TargetBalances_0@) == state.target_balances.policies()
        },
        QueryMsg::TargetBalance { address } => if state.target_balances@.contains_key(address@) {
            &&& r is Ok
            &&& r->Ok_0 is TargetBalance
            &&& r->Ok_0->TargetBalance_0@ == (TargetBalanceView {
                address: address@,
                update_options: state.target_balances@[address@],
            })
        } else {
            r == Err::<QueryResponse, ContractError>(ContractError::UnknownTarget)
        },
        QueryMsg::Ownership {  } => {
            &&& r is Ok
            &&& r->Ok_0 is Ownership
            &&& identity_view(r->Ok_0->Ownership_0) == state.ownership@.owner
        },
    }
}

/// Answers `msg` from the state.
pub fn query(state: &State, msg: QueryMsg) -> (r: Result<QueryResponse, ContractError>)
    ensures
        query_post(state, msg, r),
{
    match msg {
        QueryMsg::TargetBalances {  } => query_target_balances(state),
        QueryMsg::TargetBalance { address } => query_target_balance(state, address.as_str()),
        QueryMsg::Ownership {  } => Ok(QueryResponse::Ownership(state.ownership.owner.clone())),
    }
}

} // verus!
