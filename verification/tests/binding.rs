use cw721_soulbound::contract::{
    instantiate, query, query_config, reply, INSTANTIATE_REPLY_ID, LEDGER_LABEL, LEDGER_NAME, LEDGER_SYMBOL,
};
use cw721_soulbound::ledger::Empty;
use cw721_soulbound::msg::{InstantiateMsg, QueryMsg, QueryResponse};
use cw721_soulbound::reply::{Reply, SubMsgResponse};
use cw721_soulbound::response::{ReplyOn, Response, SubMsg, WasmMsg};
use cw721_soulbound::state::{Config, ConfigStore, Policy};
use cw721_soulbound::{ContractError, ErrorKind};

const CONTRACT: &str = "cosmos2contract";
const LEDGER: &str = "cosmos1ledger";

fn construction() -> InstantiateMsg {
    InstantiateMsg {
        admin: Some("admin".to_string()),
        name: "SpaceShips".to_string(),
        symbol: "SPACE".to_string(),
        minter: "carol".to_string(),
        cw721_code_id: 17,
        token_uri: "ipfs://participation".to_string(),
        extension: None,
    }
}

/// The protobuf bytes of an instantiation response: the address, then the data.
fn instantiation_response(address: &str, data: &[u8]) -> Vec<u8> {
    let mut bytes = vec![0x0a, address.len() as u8];
    bytes.extend_from_slice(address.as_bytes());
    if !data.is_empty() {
        bytes.push(0x12);
        bytes.push(data.len() as u8);
        bytes.extend_from_slice(data);
    }
    bytes
}

fn completion(id: u64, address: &str) -> Reply {
    Reply { id, result: Ok(SubMsgResponse { data: Some(instantiation_response(address, b"")) }) }
}

fn constructed() -> ConfigStore {
    let mut store = ConfigStore::new();
    instantiate(&mut store, CONTRACT, construction()).unwrap();
    store
}

#[test]
fn construction_saves_an_unbound_configuration() {
    let store = constructed();
    let config = store.load().unwrap();
    assert_eq!(config.cw721_address, None);
    assert_eq!(config.token_id, 0);
    assert_eq!(config.token_uri, "ipfs://participation");
    assert_eq!(config.extension, None);
    match config.policy {
        Policy::OptionalAdmin { admin, minter } => {
            assert_eq!(admin, Some("admin".to_string()));
            assert_eq!(minter, "carol");
        }
        other => panic!("unexpected policy {:?}", other),
    }
}

#[test]
fn construction_asks_for_one_ledger() {
    let mut store = ConfigStore::new();
    let response = instantiate(&mut store, CONTRACT, construction()).unwrap();
    let expected = Response {
        messages: vec![SubMsg {
            id: 1,
            msg: WasmMsg::Instantiate {
                admin: None,
                code_id: 17,
                msg: br#"{"name":"Crowdfunding Participation","symbol":"CP","minter":"cosmos2contract"}"#.to_vec(),
                funds: vec![],
                label: "quadratic funding nft contract".to_string(),
            },
            gas_limit: None,
            reply_on: ReplyOn::Success,
        }],
        attributes: vec![],
    };
    assert_eq!(response, expected);
    assert_eq!(INSTANTIATE_REPLY_ID, 1);
    assert_eq!(LEDGER_LABEL, "quadratic funding nft contract");
    assert_eq!(LEDGER_NAME, "Crowdfunding Participation");
    assert_eq!(LEDGER_SYMBOL, "CP");
}

#[test]
fn ledger_name_and_symbol_are_fixed() {
    // whatever the construction message names, the ledger is created alike
    let mut first = construction();
    first.name = "Other".to_string();
    first.symbol = "OTH".to_string();
    let mut second = construction();
    second.name = String::new();
    second.symbol = "\"quoted\"".to_string();
    let mut store = ConfigStore::new();
    let one = instantiate(&mut store, CONTRACT, first).unwrap();
    let two = instantiate(&mut store, CONTRACT, second).unwrap();
    assert_eq!(one, two);
    match &one.messages[0].msg {
        WasmMsg::Instantiate { msg, .. } => assert_eq!(
            String::from_utf8(msg.clone()).unwrap(),
            r#"{"name":"Crowdfunding Participation","symbol":"CP","minter":"cosmos2contract"}"#
        ),
        other => panic!("unexpected message {:?}", other),
    }
    // the minter of the ledger follows the contract's address
    let elsewhere = instantiate(&mut store, "cosmos1elsewhere", construction()).unwrap();
    match &elsewhere.messages[0].msg {
        WasmMsg::Instantiate { msg, .. } => assert_eq!(
            String::from_utf8(msg.clone()).unwrap(),
            r#"{"name":"Crowdfunding Participation","symbol":"CP","minter":"cosmos1elsewhere"}"#
        ),
        other => panic!("unexpected message {:?}", other),
    }
}

#[test]
fn construction_frames_the_message_as_the_host_library_does() {
    let mut store = ConfigStore::new();
    let response = instantiate(&mut store, CONTRACT, construction()).unwrap();
    let init = cw721_base::InstantiateMsg {
        name: "Crowdfunding Participation".to_string(),
        symbol: "CP".to_string(),
        minter: CONTRACT.to_string(),
    };
    let expected = cosmwasm_std::SubMsg::<cosmwasm_std::Empty>::reply_on_success(
        cosmwasm_std::wasm_instantiate(17, &init, vec![], "quadratic funding nft contract".to_owned()).unwrap(),
        1,
    );
    assert_eq!(response.messages.len(), 1);
    let ours = &response.messages[0];
    assert_eq!(ours.id, expected.id);
    assert_eq!(ours.gas_limit, expected.gas_limit);
    assert_eq!(ours.reply_on, ReplyOn::Success);
    assert_eq!(expected.reply_on, cosmwasm_std::ReplyOn::Success);
    match (&ours.msg, &expected.msg) {
        (
            WasmMsg::Instantiate { admin, code_id, msg, funds, label },
            cosmwasm_std::CosmosMsg::Wasm(cosmwasm_std::WasmMsg::Instantiate {
                admin: their_admin,
                code_id: their_code_id,
                msg: their_msg,
                funds: their_funds,
                label: their_label,
            }),
        ) => {
            assert_eq!(admin, their_admin);
            assert_eq!(code_id, their_code_id);
            assert_eq!(msg, &their_msg.0);
            assert_eq!(funds.len(), their_funds.len());
            assert_eq!(label, their_label);
        }
        other => panic!("unexpected messages {:?}", other),
    }
}

#[test]
fn construction_replaces_what_was_stored() {
    let mut store = constructed();
    reply(&mut store, completion(1, LEDGER)).unwrap();
    let mut msg = construction();
    msg.admin = None;
    msg.extension = Some(Empty {});
    instantiate(&mut store, CONTRACT, msg).unwrap();
    let config = store.load().unwrap();
    assert_eq!(config.cw721_address, None);
    assert_eq!(config.extension, Some(Empty {}));
    assert_eq!(config.policy.admin(), None);
}

#[test]
fn completion_binds_the_reported_ledger() {
    let mut store = constructed();
    let response = reply(&mut store, completion(1, LEDGER)).unwrap();
    assert_eq!(response, Response { messages: vec![], attributes: vec![] });
    let config = store.load().unwrap();
    assert_eq!(config.cw721_address, Some(LEDGER.to_string()));
    // nothing else moved
    assert_eq!(config.token_id, 0);
    assert_eq!(config.token_uri, "ipfs://participation");
    assert_eq!(config.policy.admin(), Some("admin".to_string()));
}

#[test]
fn completion_reads_the_address_past_the_data() {
    let mut store = constructed();
    let bytes = instantiation_response("wasm14hj2", &[1, 2, 3]);
    assert_eq!(bytes[0..2], [0x0a, 9]);
    reply(&mut store, Reply { id: 1, result: Ok(SubMsgResponse { data: Some(bytes) }) }).unwrap();
    assert_eq!(store.load().unwrap().cw721_address, Some("wasm14hj2".to_string()));
}

#[test]
fn binding_happens_exactly_once() {
    let mut store = constructed();
    reply(&mut store, completion(1, LEDGER)).unwrap();
    // the same callback again, another ledger under the same id, a foreign id
    for later in [completion(1, LEDGER), completion(1, "cosmos1other"), completion(9, "cosmos1other")] {
        let err = reply(&mut store, later).unwrap_err();
        assert_eq!(err, ContractError::Cw721AlreadyLinked {});
        assert_eq!(store.load().unwrap().cw721_address, Some(LEDGER.to_string()));
    }
}

#[test]
fn foreign_callback_is_refused_and_binds_nothing() {
    let mut store = constructed();
    for id in [0, 2, u64::MAX] {
        let err = reply(&mut store, completion(id, LEDGER)).unwrap_err();
        assert_eq!(err, ContractError::InvalidTokenReplyId {});
        assert_eq!(store.load().unwrap().cw721_address, None);
    }
    // the right one still binds afterwards
    reply(&mut store, completion(1, LEDGER)).unwrap();
    assert_eq!(store.load().unwrap().cw721_address, Some(LEDGER.to_string()));
}

#[test]
fn callback_before_construction_is_uninitialized() {
    let mut store = ConfigStore::new();
    let err = reply(&mut store, completion(1, LEDGER)).unwrap_err();
    assert_eq!(err, ContractError::Uninitialized {});
    assert!(store.record.is_none());
}

#[test]
fn unreadable_callback_is_refused_and_binds_nothing() {
    let unreadable = vec![
        // the sub-message failed
        Reply { id: 1, result: Err("out of gas".to_string()) },
        // no data at all
        Reply { id: 1, result: Ok(SubMsgResponse { data: None }) },
        // the address is cut short
        Reply { id: 1, result: Ok(SubMsgResponse { data: Some(vec![0x0a, 5, b'a', b'b']) }) },
        // the first field is not the address
        Reply { id: 1, result: Ok(SubMsgResponse { data: Some(vec![0x12, 1, b'a']) }) },
        // the address is no text
        Reply { id: 1, result: Ok(SubMsgResponse { data: Some(vec![0x0a, 2, 0xff, 0xfe]) }) },
    ];
    let mut store = constructed();
    for callback in unreadable {
        let err = reply(&mut store, callback).unwrap_err();
        assert_eq!(err.kind(), ErrorKind::ParseReply);
        assert_eq!(store.load().unwrap().cw721_address, None);
    }
    let err = reply(&mut store, Reply { id: 1, result: Err("out of gas".to_string()) }).unwrap_err();
    assert_eq!(
        err,
        ContractError::ParseReply(cw_utils::ParseReplyError::SubMsgFailure("out of gas".to_string()))
    );
}

#[test]
fn refusals_are_checked_in_order() {
    // bound comes before the id, the id before the data
    let mut store = constructed();
    let err = reply(&mut store, Reply { id: 3, result: Err("failed".to_string()) }).unwrap_err();
    assert_eq!(err.kind(), ErrorKind::InvalidTokenReplyId);
    reply(&mut store, completion(1, LEDGER)).unwrap();
    let err = reply(&mut store, Reply { id: 3, result: Err("failed".to_string()) }).unwrap_err();
    assert_eq!(err.kind(), ErrorKind::Cw721AlreadyLinked);
}

#[test]
fn configuration_saved_is_configuration_loaded() {
    let config = Config {
        cw721_address: Some(LEDGER.to_string()),
        policy: Policy::UnrestrictedMinter { minter: "carol".to_string() },
        token_id: 41,
        token_uri: "ipfs://participation".to_string(),
        extension: Some(Empty {}),
    };
    let mut store = ConfigStore::new();
    assert_eq!(store.load().unwrap_err(), ContractError::Uninitialized {});
    store.save(config.clone());
    let loaded = store.load().unwrap();
    assert_eq!(loaded.cw721_address, config.cw721_address);
    assert_eq!(loaded.token_id, 41);
    assert_eq!(loaded.token_uri, config.token_uri);
    assert_eq!(loaded.extension, config.extension);
    match loaded.policy {
        Policy::UnrestrictedMinter { minter } => assert_eq!(minter, "carol"),
        other => panic!("unexpected policy {:?}", other),
    }
    // a second save replaces the first
    store.save(Config { token_id: 42, ..config });
    assert_eq!(store.load().unwrap().token_id, 42);
}

#[test]
fn queries_are_answered_from_the_configuration() {
    let store = ConfigStore::new();
    assert_eq!(query(&store, QueryMsg::Config {}).unwrap_err(), ContractError::Uninitialized {});
    assert_eq!(query(&store, QueryMsg::Admin {}).unwrap_err(), ContractError::Uninitialized {});
    assert_eq!(query_config(&store).unwrap_err(), ContractError::Uninitialized {});

    let mut store = constructed();
    reply(&mut store, completion(1, LEDGER)).unwrap();
    match query(&store, QueryMsg::Config {}).unwrap() {
        QueryResponse::Config(config) => {
            assert_eq!(config.cw721_address, Some(LEDGER.to_string()));
            assert_eq!(config.token_id, 0);
            assert_eq!(config.token_uri, "ipfs://participation");
        }
        other => panic!("unexpected answer {:?}", other),
    }
    match query(&store, QueryMsg::Admin {}).unwrap() {
        QueryResponse::Admin(answer) => assert_eq!(answer.admin, Some("admin".to_string())),
        other => panic!("unexpected answer {:?}", other),
    }
    assert_eq!(query_config(&store).unwrap().cw721_address, Some(LEDGER.to_string()));
}

#[test]
fn admin_query_follows_the_policy() {
    let single = Policy::SingleOwner { owner: "alice".to_string() };
    assert_eq!(single.admin(), Some("alice".to_string()));
    let without = Policy::OptionalAdmin { admin: None, minter: "carol".to_string() };
    assert_eq!(without.admin(), None);
    let with = Policy::OptionalAdmin { admin: Some("dave".to_string()), minter: "carol".to_string() };
    assert_eq!(with.admin(), Some("dave".to_string()));
    let unrestricted = Policy::UnrestrictedMinter { minter: "carol".to_string() };
    assert_eq!(unrestricted.admin(), None);
}

#[test]
fn every_error_has_its_kind() {
    let errors = vec![
        (ContractError::Std(cosmwasm_std::StdError::generic_err("unwritable")), ErrorKind::Std),
        (ContractError::Uninitialized {}, ErrorKind::Uninitialized),
        (ContractError::Cw721AlreadyLinked {}, ErrorKind::Cw721AlreadyLinked),
        (ContractError::InvalidTokenReplyId {}, ErrorKind::InvalidTokenReplyId),
        (ContractError::Ownership(cw721_soulbound::OwnershipError::NotOwner), ErrorKind::NotOwner),
        (
            ContractError::ParseReply(cw_utils::ParseReplyError::ParseFailure("Missing reply data".to_owned())),
            ErrorKind::ParseReply,
        ),
    ];
    for (error, kind) in errors {
        assert_eq!(error.kind(), kind);
    }
}

#[test]
fn reply_without_data_reports_what_the_parser_says() {
    let mut store = constructed();
    let err = reply(&mut store, Reply { id: 1, result: Ok(SubMsgResponse { data: None }) }).unwrap_err();
    assert_eq!(
        err,
        ContractError::ParseReply(cw_utils::ParseReplyError::ParseFailure("Missing reply data".to_owned()))
    );
}
