use cosmos_sdk_proto::cosmos::bank::v1beta1 as bank;
use cosmwasm_std::CosmosMsg;
use gas_distributor::answer::attr;
use gas_distributor::error::OwnershipError;
use gas_distributor::host::{Api, BlockInfo, Env, MessageInfo};
use gas_distributor::lazy_staking::{
    create_set_denom_metadata_msg, denom_to_resolve, execute, query, reply, set_denom_metadata,
    ContractError, DenomMetadata, DenomUnit, ExecuteMsg, InstantiateMsg, Metadata, MigrateMsg,
    MsgSetDenomMetadata, QueryMsg, State, CREATE_DENOM_REPLY_ID, SET_DENOM_METADATA_TYPE_URL,
};
use gas_distributor::ownership::{Action, Ownership};
use neutron_sdk::bindings::msg::NeutronMsg;
use neutron_sdk::proto_types::osmosis::tokenfactory::v1beta1 as tokenfactory;

fn token(display: &str) -> DenomMetadata {
    DenomMetadata {
        description: "".to_string(),
        display: display.to_string(),
        name: "".to_string(),
        symbol: "".to_string(),
        uri: "".to_string(),
        uri_hash: "".to_string(),
    }
}

fn rich() -> DenomMetadata {
    DenomMetadata {
        description: "a staked token".to_string(),
        display: "lazy".to_string(),
        name: "Lazy".to_string(),
        symbol: "LZY".to_string(),
        uri: "https://example.org".to_string(),
        uri_hash: "abc".to_string(),
    }
}

#[test]
fn request_names_base_and_display_units() {
    let msg = set_denom_metadata("contract".to_string(), "factory/contract/ulazy".to_string(), rich(), 6);
    assert_eq!(
        msg,
        MsgSetDenomMetadata {
            sender: "contract".to_string(),
            metadata: Metadata {
                description: "a staked token".to_string(),
                denom_units: vec![
                    DenomUnit {
                        denom: "factory/contract/ulazy".to_string(),
                        exponent: 0,
                        aliases: vec![],
                    },
                    DenomUnit {
                        denom: "lazy".to_string(),
                        exponent: 6,
                        aliases: vec![],
                    },
                ],
                base: "factory/contract/ulazy".to_string(),
                display: "lazy".to_string(),
                name: "Lazy".to_string(),
                symbol: "LZY".to_string(),
                uri: "https://example.org".to_string(),
                uri_hash: "abc".to_string(),
            },
        }
    );
}

#[test]
fn message_carries_protobuf_encoding() {
    let msg = create_set_denom_metadata_msg("c".to_string(), "d".to_string(), token("D"), 6);
    assert_eq!(msg.type_url, "/osmosis.tokenfactory.v1beta1.MsgSetDenomMetadata");
    assert_eq!(msg.type_url, SET_DENOM_METADATA_TYPE_URL);
    assert_eq!(
        msg.value,
        vec![
            0x0a, 0x01, b'c', // sender
            0x12, 0x12, // metadata, 18 bytes
            0x12, 0x03, 0x0a, 0x01, b'd', // unit "d", exponent 0
            0x12, 0x05, 0x0a, 0x01, b'D', 0x10, 0x06, // unit "D", exponent 6
            0x1a, 0x01, b'd', // base
            0x22, 0x01, b'D', // display
        ]
    );
}

#[test]
fn message_agrees_with_neutron_sdk() {
    let ours = create_set_denom_metadata_msg(
        "contract".to_string(),
        "factory/contract/ulazy".to_string(),
        rich(),
        18,
    );
    let theirs: CosmosMsg<NeutronMsg> = neutron_sdk::stargate::aux::create_stargate_msg(
        "/osmosis.tokenfactory.v1beta1.MsgSetDenomMetadata",
        tokenfactory::MsgSetDenomMetadata {
            sender: "contract".to_string(),
            metadata: Some(bank::Metadata {
                denom_units: vec![
                    bank::DenomUnit {
                        denom: "factory/contract/ulazy".to_string(),
                        exponent: 0,
                        aliases: vec![],
                    },
                    bank::DenomUnit {
                        denom: "lazy".to_string(),
                        exponent: 18,
                        aliases: vec![],
                    },
                ],
                base: "factory/contract/ulazy".to_string(),
                display: "lazy".to_string(),
                name: "Lazy".to_string(),
                description: "a staked token".to_string(),
                symbol: "LZY".to_string(),
                uri: "https://example.org".to_string(),
                uri_hash: "abc".to_string(),
            }),
        },
    );
    match theirs {
        CosmosMsg::Stargate { type_url, value } => {
            assert_eq!(ours.type_url, type_url);
            assert_eq!(ours.value, value.to_vec());
        }
        other => panic!("unexpected message: {:?}", other),
    }
}

#[test]
fn reply_to_creation_sets_metadata_once() {
    let mut state = State {
        denom: "ulazy".to_string(),
        token_metadata: Some(token("D")),
        exponent: 6,
    };
    assert_eq!(
        denom_to_resolve(&state, CREATE_DENOM_REPLY_ID),
        Ok("ulazy".to_string())
    );
    let answer = reply(&mut state, "c".to_string(), CREATE_DENOM_REPLY_ID, "d".to_string()).unwrap();
    assert_eq!(answer.attribute, attr("full_denom", "d"));
    assert_eq!(
        answer.message,
        create_set_denom_metadata_msg("c".to_string(), "d".to_string(), token("D"), 6)
    );
    assert_eq!(
        state,
        State {
            denom: "d".to_string(),
            token_metadata: None,
            exponent: 6,
        }
    );
    let after = state.clone();
    assert_eq!(
        reply(&mut state, "c".to_string(), CREATE_DENOM_REPLY_ID, "e".to_string()),
        Err(ContractError::NotFound)
    );
    assert_eq!(state, after);
}

#[test]
fn unknown_reply_is_refused() {
    let mut state = State {
        denom: "ulazy".to_string(),
        token_metadata: Some(token("D")),
        exponent: 6,
    };
    let before = state.clone();
    for id in [0, CREATE_DENOM_REPLY_ID + 1, u64::MAX] {
        assert_eq!(
            denom_to_resolve(&state, id),
            Err(ContractError::UnknownReplyId { id })
        );
        assert_eq!(
            reply(&mut state, "c".to_string(), id, "d".to_string()),
            Err(ContractError::UnknownReplyId { id })
        );
        assert_eq!(state, before);
    }
}

#[test]
fn companion_migration_needs_nothing() {
    assert_eq!(MigrateMsg {}, MigrateMsg {});
}

#[test]
fn companion_changes_owner_by_offer_and_accept() {
    let mut api = Api::new();
    api.accept("new_owner".to_string());
    let env = Env {
        block: BlockInfo { height: 1, time: 1 },
        contract_address: "contract".to_string(),
    };
    let by = |sender: &str| MessageInfo {
        sender: sender.to_string(),
    };
    let mut ownership = Ownership {
        owner: Some("owner".to_string()),
        pending_owner: None,
        pending_expiry: None,
    };
    let offer = ExecuteMsg::UpdateOwnership(Action::TransferOwnership {
        new_owner: "new_owner".to_string(),
        expiry: None,
    });
    assert_eq!(
        execute(&mut ownership, &api, &env, &by("somebody"), offer.clone()),
        Err(ContractError::Ownership(
            gas_distributor::error::ContractError::Unauthorized(OwnershipError::NotOwner)
        ))
    );
    assert_eq!(query(&ownership, QueryMsg::Ownership {}), Some("owner".to_string()));
    let answer = execute(&mut ownership, &api, &env, &by("owner"), offer).unwrap();
    assert!(answer.messages.is_empty());
    assert_eq!(answer.events.len(), 1);
    assert_eq!(
        answer.events[0].ty,
        "crates.io:drop-helper__drop-lazy-staking-execute-update-ownership"
    );
    assert!(answer.events[0].attributes.is_empty());
    execute(
        &mut ownership,
        &api,
        &env,
        &by("new_owner"),
        ExecuteMsg::UpdateOwnership(Action::AcceptOwnership),
    )
    .unwrap();
    assert_eq!(
        query(&ownership, QueryMsg::Ownership {}),
        Some("new_owner".to_string())
    );
    assert_eq!(InstantiateMsg {}, InstantiateMsg {});
}
