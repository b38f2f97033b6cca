use cosmwasm_std::StdError;
use cw721_soulbound::contract::{begin_binding, complete_binding, issue};
use cw721_soulbound::ledger::Empty;
use cw721_soulbound::msg::InstantiateMsg;
use cw721_soulbound::reply::MsgInstantiateContractResponse;
use cw721_soulbound::response::{Attribute, ReplyOn, Response, SubMsg, WasmMsg};
use cw721_soulbound::state::{Config, ConfigStore, Policy};
use cw721_soulbound::{ContractError, OwnershipError};
use cw_utils::ParseReplyError;

fn construction() -> InstantiateMsg {
    InstantiateMsg {
        admin: None,
        name: "Participation".to_string(),
        symbol: "CP".to_string(),
        minter: "carol".to_string(),
        cw721_code_id: 8,
        token_uri: "ipfs://participation".to_string(),
        extension: Some(Empty {}),
    }
}

fn pending() -> ConfigStore {
    let mut store = ConfigStore::new();
    begin_binding(&mut store, construction(), Ok(b"{}".to_vec())).unwrap();
    store
}

fn bound_to(ledger: &str, token_id: u64) -> ConfigStore {
    ConfigStore {
        record: Some(Config {
            cw721_address: Some(ledger.to_string()),
            policy: Policy::OptionalAdmin { admin: None, minter: "carol".to_string() },
            token_id,
            token_uri: "ipfs://participation".to_string(),
            extension: None,
        }),
    }
}

fn created(address: &str) -> Result<MsgInstantiateContractResponse, ParseReplyError> {
    Ok(MsgInstantiateContractResponse { contract_address: address.to_string(), data: None })
}

#[test]
fn beginning_saves_and_emits() {
    let mut store = ConfigStore::new();
    let response = begin_binding(&mut store, construction(), Ok(vec![1, 2, 3])).unwrap();
    assert_eq!(
        response,
        Response {
            messages: vec![SubMsg {
                id: 1,
                msg: WasmMsg::Instantiate {
                    admin: None,
                    code_id: 8,
                    msg: vec![1, 2, 3],
                    funds: vec![],
                    label: "quadratic funding nft contract".to_string(),
                },
                gas_limit: None,
                reply_on: ReplyOn::Success,
            }],
            attributes: vec![],
        }
    );
    let config = store.load().unwrap();
    assert_eq!(config.cw721_address, None);
    assert_eq!(config.token_id, 0);
    assert_eq!(config.token_uri, "ipfs://participation");
    assert_eq!(config.extension, Some(Empty {}));
    assert!(config.policy.allows("carol"));
}

#[test]
fn beginning_without_a_message_changes_nothing() {
    let mut store = ConfigStore::new();
    let err = begin_binding(&mut store, construction(), Err(StdError::generic_err("unwritable"))).unwrap_err();
    assert_eq!(err, ContractError::Std(StdError::generic_err("unwritable")));
    assert!(store.record.is_none());

    let mut store = bound_to("cosmos1ledger", 5);
    let err = begin_binding(&mut store, construction(), Err(StdError::generic_err("unwritable"))).unwrap_err();
    assert_eq!(err, ContractError::Std(StdError::generic_err("unwritable")));
    let config = store.load().unwrap();
    assert_eq!(config.cw721_address, Some("cosmos1ledger".to_string()));
    assert_eq!(config.token_id, 5);
}

#[test]
fn completing_binds_once() {
    let mut store = pending();
    let response = complete_binding(&mut store, 1, created("cosmos1ledger")).unwrap();
    assert_eq!(response, Response { messages: vec![], attributes: vec![] });
    assert_eq!(store.load().unwrap().cw721_address, Some("cosmos1ledger".to_string()));

    let err = complete_binding(&mut store, 1, created("cosmos1other")).unwrap_err();
    assert_eq!(err, ContractError::Cw721AlreadyLinked {});
    let err = complete_binding(&mut store, 2, created("cosmos1other")).unwrap_err();
    assert_eq!(err, ContractError::Cw721AlreadyLinked {});
    let err = complete_binding(&mut store, 1, Err(ParseReplyError::ParseFailure("short".to_string()))).unwrap_err();
    assert_eq!(err, ContractError::Cw721AlreadyLinked {});
    assert_eq!(store.load().unwrap().cw721_address, Some("cosmos1ledger".to_string()));
}

#[test]
fn completing_refuses_in_order() {
    let mut store = ConfigStore::new();
    assert_eq!(complete_binding(&mut store, 1, created("l")).unwrap_err(), ContractError::Uninitialized {});
    assert_eq!(
        complete_binding(&mut store, 7, Err(ParseReplyError::SubMsgFailure("x".to_string()))).unwrap_err(),
        ContractError::Uninitialized {}
    );

    let mut store = pending();
    assert_eq!(
        complete_binding(&mut store, 7, Err(ParseReplyError::SubMsgFailure("x".to_string()))).unwrap_err(),
        ContractError::InvalidTokenReplyId {}
    );
    assert_eq!(
        complete_binding(&mut store, 1, Err(ParseReplyError::SubMsgFailure("x".to_string()))).unwrap_err(),
        ContractError::ParseReply(ParseReplyError::SubMsgFailure("x".to_string()))
    );
    assert_eq!(store.load().unwrap().cw721_address, None);
    // an empty address is still the address the host reported
    complete_binding(&mut store, 1, created("")).unwrap();
    assert_eq!(store.load().unwrap().cw721_address, Some(String::new()));
}

#[test]
fn issuing_sends_and_counts() {
    let mut store = bound_to("cosmos1ledger", 41);
    let response = issue(&mut store, "carol", Ok(vec![9, 9])).unwrap();
    assert_eq!(
        response,
        Response {
            messages: vec![SubMsg {
                id: 0,
                msg: WasmMsg::Execute { contract_addr: "cosmos1ledger".to_string(), msg: vec![9, 9], funds: vec![] },
                gas_limit: None,
                reply_on: ReplyOn::Never,
            }],
            attributes: vec![Attribute { key: "action".to_string(), value: "mint".to_string() }],
        }
    );
    assert_eq!(store.load().unwrap().token_id, 42);
    // the last id the counter has room for
    let mut store = bound_to("cosmos1ledger", u64::MAX - 1);
    issue(&mut store, "carol", Ok(vec![])).unwrap();
    assert_eq!(store.load().unwrap().token_id, u64::MAX);
}

#[test]
fn issuing_refuses_in_order() {
    let unwritable = || Err(StdError::generic_err("unwritable"));
    let mut store = ConfigStore::new();
    assert_eq!(issue(&mut store, "carol", unwritable()).unwrap_err(), ContractError::Uninitialized {});

    let mut store = pending();
    assert_eq!(issue(&mut store, "carol", Ok(vec![])).unwrap_err(), ContractError::Uninitialized {});
    assert_eq!(issue(&mut store, "dave", unwritable()).unwrap_err(), ContractError::Uninitialized {});

    let mut store = bound_to("cosmos1ledger", 3);
    assert_eq!(
        issue(&mut store, "dave", unwritable()).unwrap_err(),
        ContractError::Ownership(OwnershipError::NotOwner)
    );
    assert_eq!(
        issue(&mut store, "carol", unwritable()).unwrap_err(),
        ContractError::Std(StdError::generic_err("unwritable"))
    );
    assert_eq!(store.load().unwrap().token_id, 3);
}
