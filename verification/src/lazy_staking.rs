//! The companion contract, which creates a token of its own. Its owner is
//! kept as the distributor's is. Once the host has created the denomination,
//! the contract answers with the message that sets the denomination's bank
//! metadata.

use crate::answer::{attributes_view, response, response_view, Attribute, AttributeView, Response};
use crate::host::{Api, Env, MessageInfo};
use crate::ownership::{after_action, identity_view, update_ownership, Action, Ownership};
use cosmos_sdk_proto::cosmos::bank::v1beta1 as bank;
use cosmwasm_std::CosmosMsg;
use neutron_sdk::bindings::msg::NeutronMsg;
use neutron_sdk::proto_types::osmosis::tokenfactory::v1beta1 as tokenfactory;
use neutron_sdk::stargate::aux::create_stargate_msg;
use vstd::prelude::*;

verus! {

/// The reply that tells the contract that its denomination has been created.
pub const CREATE_DENOM_REPLY_ID: u64 = 1;

/// The kind of message that sets a denomination's metadata.
pub const SET_DENOM_METADATA_TYPE_URL: &'static str =
    "/osmosis.tokenfactory.v1beta1.MsgSetDenomMetadata";

/// The name under which the contract emits its events.
pub const CONTRACT_NAME: &'static str = "crates.io:drop-helper__drop-lazy-staking";

/// Nothing is needed to start the contract.
#[derive(Clone, Copy, Debug, PartialEq, Eq, Structural)]
pub struct InstantiateMsg {}

/// Nothing is needed to migrate the contract.
#[derive(Clone, Copy, Debug, PartialEq, Eq, Structural)]
pub struct MigrateMsg {}

/// What can be asked of the contract.
#[derive(Clone, Copy, Debug, PartialEq, Eq, Structural)]
pub enum QueryMsg {
    /// The current owner.
    Ownership {},
}

/// What the contract can be told to do.
#[derive(Clone, Debug, PartialEq, Eq)]
pub enum ExecuteMsg {
    /// Offer, accept or renounce ownership.
    UpdateOwnership(Action),
}

/// Why a message or a reply is refused.
#[derive(Clone, Copy, Debug, PartialEq, Eq, Structural)]
pub enum ContractError {
    /// The change of ownership is refused.
    Ownership(crate::error::ContractError),
    /// The reply answers nothing that the contract has asked for.
    UnknownReplyId { id: u64 },
    /// The metadata of the token is no longer held.
    NotFound,
}

/// How the token presents itself.
#[derive(Clone, Debug, PartialEq, Eq)]
pub struct DenomMetadata {
    pub description: String,
    pub display: String,
    pub name: String,
    pub symbol: String,
    pub uri: String,
    pub uri_hash: String,
}

/// One unit in which amounts of a denomination are written.
#[derive(Clone, Debug, PartialEq, Eq)]
pub struct DenomUnit {
    pub denom: String,
    pub exponent: u32,
    pub aliases: Vec<String>,
}

/// A unit as a mathematical value.
pub struct DenomUnitView {
    pub denom: Seq<char>,
    pub exponent: u32,
    pub aliases: Seq<Seq<char>>,
}

impl View for DenomUnit {
    type V = DenomUnitView;

    open spec fn view(&self) -> DenomUnitView {
        DenomUnitView {
            denom: self.denom@,
            exponent: self.exponent,
            aliases: self.aliases@.map_values(|a: String| a@),
        }
    }
}

/// The bank metadata of a denomination.
#[derive(Clone, Debug, PartialEq, Eq)]
pub struct Metadata {
    pub description: String,
    pub denom_units: Vec<DenomUnit>,
    pub base: String,
    pub display: String,
    pub name: String,
    pub symbol: String,
    pub uri: String,
    pub uri_hash: String,
}

/// Bank metadata as a mathematical value.
pub struct MetadataView {
    pub description: Seq<char>,
    pub denom_units: Seq<DenomUnitView>,
    pub base: Seq<char>,
    pub display: Seq<char>,
    pub name: Seq<char>,
    pub symbol: Seq<char>,
    pub uri: Seq<char>,
    pub uri_hash: Seq<char>,
}

impl View for Metadata {
    type V = MetadataView;

    open spec fn view(&self) -> MetadataView {
        MetadataView {
            description: self.description@,
            denom_units: self.denom_units@.map_values(|u: DenomUnit| u@),
            base: self.base@,
            display: self.display@,
            name: self.name@,
            symbol: self.symbol@,
            uri: self.uri@,
            uri_hash: self.uri_hash@,
        }
    }
}

/// The request by which `sender` sets the metadata of a denomination.
#[derive(Clone, Debug, PartialEq, Eq)]
pub struct MsgSetDenomMetadata {
    pub sender: String,
    pub metadata: Metadata,
}

/// The request as a mathematical value.
pub struct MsgSetDenomMetadataView {
    pub sender: Seq<char>,
    pub metadata: MetadataView,
}

impl View for MsgSetDenomMetadata {
    type V = MsgSetDenomMetadataView;

    open spec fn view(&self) -> MsgSetDenomMetadataView {
        MsgSetDenomMetadataView { sender: self.sender@, metadata: self.metadata@ }
    }
}

/// A message that the host routes by its kind, with the request in its
/// protobuf encoding.
#[derive(Clone, Debug, PartialEq, Eq)]
pub struct StargateMsg {
    pub type_url: String,
    pub value: Vec<u8>,
}

/// The request that sets the metadata of `denom`: amounts are written in the
/// denomination itself and, shifted by `exponent` digits, in the display
/// denomination of `token_metadata`.
pub open spec fn set_denom_metadata_request(
    contract_address: Seq<char>,
    denom: Seq<char>,
    token_metadata: DenomMetadata,
    exponent: u32,
) -> MsgSetDenomMetadataView {
    MsgSetDenomMetadataView {
        sender: contract_address,
        metadata: MetadataView {
            description: token_metadata.description@,
            denom_units: seq![
                DenomUnitView { denom, exponent: 0, aliases: Seq::empty() },
                DenomUnitView { denom: token_metadata.display@, exponent, aliases: Seq::empty() },
            ],
            base: denom,
            display: token_metadata.display@,
            name: token_metadata.name@,
            symbol: token_metadata.symbol@,
            uri: token_metadata.uri@,
            uri_hash: token_metadata.uri_hash@,
        },
    }
}

/// Builds the request that sets the metadata of `denom`.
pub fn set_denom_metadata(
    contract_address: String,
    denom: String,
    token_metadata: DenomMetadata,
    exponent: u32,
) -> (msg: MsgSetDenomMetadata)
    ensures
        msg@ == set_denom_metadata_request(contract_address@, denom@, token_metadata, exponent),
{
    let mut denom_units: Vec<DenomUnit> = Vec::new();
    let base_unit = DenomUnit { denom: denom.clone(), exponent: 0, aliases: Vec::new() };
    let display_unit = DenomUnit {
        denom: token_metadata.display.clone(),
        exponent,
        aliases: Vec::new(),
    };
    assert(base_unit@.aliases =~= Seq::empty());
    assert(display_unit@.aliases =~= Seq::empty());
    denom_units.push(base_unit);
    denom_units.push(display_unit);
    let msg = MsgSetDenomMetadata {
        sender: contract_address,
        metadata: Metadata {
            description: token_metadata.description,
            denom_units,
            base: denom,
            display: token_metadata.display,
            name: token_metadata.name,
            symbol: token_metadata.symbol,
            uri: token_metadata.uri,
            uri_hash: token_metadata.uri_hash,
        },
    };
    assert(msg@.metadata.denom_units =~= seq![base_unit@, display_unit@]);
    msg
}

/// The protobuf encoding of a request to set a denomination's metadata.
pub uninterp spec fn stargate_value(msg: MsgSetDenomMetadataView) -> Seq<u8>;

/// Hands `msg` to `neutron_sdk::stargate::aux::create_stargate_msg`, which
/// returns a stargate message whose kind is `path` and whose value is the
/// protobuf encoding of the request. The encoding is not spelled out here: it
/// is named `stargate_value`.
#[verifier::external_body]
fn stargate_msg(path: &str, msg: MsgSetDenomMetadata) -> (r: Option<StargateMsg>)
    ensures
        r is Some,
        r->Some_0.type_url@ == path@,
        r->Some_0.value@ == stargate_value(msg@),
{
    let m = msg.metadata;
    let units = m.denom_units.into_iter().map(|u| bank::DenomUnit { denom: u.denom, exponent: u.exponent, aliases: u.aliases }).collect();
    let metadata = Some(bank::Metadata { description: m.description, denom_units: units, base: m.base, display: m.display, name: m.name, symbol: m.symbol, uri: m.uri, uri_hash: m.uri_hash });
    match create_stargate_msg::<_, NeutronMsg>(path, tokenfactory::MsgSetDenomMetadata { sender: msg.sender, metadata }) {
        CosmosMsg::Stargate { type_url, value } => Some(StargateMsg { type_url, value: value.0 }),
        _ => None,
    }
}

/// Builds the message by which the contract at `contract_address` sets the
/// metadata of `denom`.
pub fn create_set_denom_metadata_msg(
    contract_address: String,
    denom: String,
    token_metadata: DenomMetadata,
    exponent: u32,
) -> (msg: StargateMsg)
    ensures
        msg.type_url@ == SET_DENOM_METADATA_TYPE_URL@,
        msg.value@ == stargate_value(
            set_denom_metadata_request(contract_address@, denom@, token_metadata, exponent),
        ),
{
    let request = set_denom_metadata(contract_address, denom, token_metadata, exponent);
    stargate_msg(SET_DENOM_METADATA_TYPE_URL, request).unwrap()
}

/// Carries out `msg` on behalf of its sender. A refused message leaves the
/// ownership as it was.
pub fn execute(ownership: &mut Ownership, api: &Api, env: &Env, info: &MessageInfo, msg: ExecuteMsg) -> (r:
    Result<Response, ContractError>)
    ensures
        match after_action(
            old(ownership)@,
            api@,
            env.block,
            info.sender@,
            msg->UpdateOwnership_0@,
        ) {
            Ok(next) => {
                &&& r is Ok
                &&& r->Ok_0@ == response_view(
                    "execute-update-ownership"@,
                    CONTRACT_NAME@,
                    Seq::empty(),
                )
                &&& final(ownership)@ == next
            },
            Err(e) => r == Err::<Response, ContractError>(ContractError::Ownership(e))
                && *final(ownership) == *old(ownership),
        },
{
    match msg {
        ExecuteMsg::UpdateOwnership(action) => {
            match update_ownership(ownership, api, &env.block, info.sender.as_str(), action) {
                Ok(_) => {},
                Err(e) => {
                    return Err(ContractError::Ownership(e));
                },
            }
            assert(attributes_view(Seq::<Attribute>::empty()) =~= Seq::<AttributeView>::empty());
            Ok(response("execute-update-ownership", CONTRACT_NAME, Vec::new()))
        },
    }
}

/// Answers `msg`: the current owner, if there is one.
pub fn query(ownership: &Ownership, msg: QueryMsg) -> (owner: Option<String>)
    ensures
        identity_view(owner) == ownership@.owner,
{
    match msg {
        QueryMsg::Ownership {  } => ownership.owner.clone(),
    }
}

/// What the contract holds of its token while the denomination is created.
#[derive(Clone, Debug, PartialEq, Eq)]
pub struct State {
    /// The sub-denomination asked for; the full denomination once created.
    pub denom: String,
    /// How the token presents itself; dropped once the metadata is set.
    pub token_metadata: Option<DenomMetadata>,
    /// By how many digits the display denomination is shifted.
    pub exponent: u32,
}

/// The answer to the reply: the full denomination as an attribute, and the
/// message that sets its metadata.
#[derive(Clone, Debug, PartialEq, Eq)]
pub struct ReplyResponse {
    pub attribute: Attribute,
    pub message: StargateMsg,
}

/// Says which sub-denomination's full name the host is to be asked for before
/// the reply `id` can be answered.
pub fn denom_to_resolve(state: &State, id: u64) -> (r: Result<String, ContractError>)
    ensures
        id == CREATE_DENOM_REPLY_ID ==> r is Ok && r->Ok_0@ == state.denom@,
        id != CREATE_DENOM_REPLY_ID ==> r == Err::<String, ContractError>(
            ContractError::UnknownReplyId { id },
        ),
{
    if id != CREATE_DENOM_REPLY_ID {
        return Err(ContractError::UnknownReplyId { id });
    }
    Ok(state.denom.clone())
}

/// Answers the reply `id`. `full_denom` is what the host calls the
/// denomination that the contract at `contract_address` has created. For the
/// reply to the creation, the state takes the full denomination, lets go of
/// the metadata, and the answer carries the message that sets it. Any other
/// reply is refused and changes nothing.
pub fn reply(state: &mut State, contract_address: String, id: u64, full_denom: String) -> (r: Result<
    ReplyResponse,
    ContractError,
>)
    ensures
        id != CREATE_DENOM_REPLY_ID ==> r == Err::<ReplyResponse, ContractError>(
            ContractError::UnknownReplyId { id },
        ) && *final(state) == *old(state),
        id == CREATE_DENOM_REPLY_ID && old(state).token_metadata is None ==> r == Err::<
            ReplyResponse,
            ContractError,
        >(ContractError::NotFound) && *final(state) == *old(state),
        id == CREATE_DENOM_REPLY_ID && old(state).token_metadata is Some ==> {
            &&& r is Ok
            &&& r->Ok_0.attribute@ == (AttributeView { key: "full_denom"@, value: full_denom@ })
            &&& r->Ok_0.message.type_url@ == SET_DENOM_METADATA_TYPE_URL@
            &&& r->Ok_0.message.value@ == stargate_value(
                set_denom_metadata_request(
                    contract_address@,
                    full_denom@,
                    old(state).token_metadata->Some_0,
                    old(state).exponent,
                ),
            )
            &&& final(state).denom@ == full_denom@
            &&& final(state).token_metadata is None
            &&& final(state).exponent == old(state).exponent
        },
{
    if id != CREATE_DENOM_REPLY_ID {
        return Err(ContractError::UnknownReplyId { id });
    }
    let token_metadata = match state.token_metadata.take() {
        Some(m) => m,
        None => {
            return Err(ContractError::NotFound);
        },
    };
    let message = create_set_denom_metadata_msg(
        contract_address,
        full_denom.clone(),
        token_metadata,
        state.exponent,
    );
    let attribute = Attribute { key: "full_denom".to_owned(), value: full_denom.clone() };
    state.denom = full_denom;
    Ok(ReplyResponse { attribute, message })
}

} // verus!
