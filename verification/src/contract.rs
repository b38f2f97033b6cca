//! The contract that creates a ledger of its own, binds to it once, and
//! issues numbered tokens on it.

use vstd::prelude::*;
use crate::decimal::{decimal, to_decimal};
use crate::error::{ContractError, ErrorKind};
use crate::guard::{authorize, verdict};
use crate::msg::{AdminResponse, ExecuteMsg, InstantiateMsg, QueryMsg, QueryResponse};
use crate::payload::{instantiate_msg_json, instantiate_msg_to_binary, mint_msg_json, mint_msg_to_binary};
use crate::reply::{callback_of, parse_reply_instantiate_data, Callback, MsgInstantiateContractResponse, Reply};
use crate::response::{
    wasm_execute,
    wasm_instantiate,
    AttributeView,
    Response,
    ResponseView,
    SubMsg,
    SubMsgView,
    WasmMsgView,
};
use crate::state::{Config, ConfigStore, ConfigView, Policy, PolicyView};
use crate::text::opt_str_view;

verus! {

/// The correlation id of the one sub-instantiation this contract emits.
pub const INSTANTIATE_REPLY_ID: u64 = 1;

/// The name of the collection the ledger is created with.
pub const LEDGER_NAME: &'static str = "Crowdfunding Participation";

/// The symbol of the collection the ledger is created with.
pub const LEDGER_SYMBOL: &'static str = "CP";

/// The label the ledger is created under.
pub const LEDGER_LABEL: &'static str = "quadratic funding nft contract";

/// A handler's result with the response and the error reduced to their
/// models.
pub open spec fn outcome(res: Result<Response, ContractError>) -> Result<ResponseView, ErrorKind> {
    match res {
        Ok(r) => Ok(r@),
        Err(e) => Err(e@),
    }
}

/// The configuration a construction with `msg` saves: no ledger bound, the
/// optional-admin policy of the message, the counter at zero.
pub open spec fn initial_config(msg: InstantiateMsg) -> ConfigView {
    ConfigView {
        cw721_address: None,
        policy: PolicyView::OptionalAdmin { admin: opt_str_view(msg.admin), minter: msg.minter@ },
        token_id: 0,
        token_uri: msg.token_uri@,
        extension: msg.extension,
    }
}

/// The one message a construction emits: create the ledger from the code the
/// message names, with this contract as its minter, and report success under
/// [`INSTANTIATE_REPLY_ID`].
pub open spec fn ledger_instantiation(code_id: u64, json: Seq<u8>) -> SubMsgView {
    SubMsgView::on_success(
        WasmMsgView::Instantiate {
            admin: None,
            code_id,
            msg: json,
            funds: Seq::empty(),
            label: LEDGER_LABEL@,
        },
        INSTANTIATE_REPLY_ID,
    )
}

/// What a construction does to the store and answers, given the encoded
/// instantiation message of the ledger or `None` where it could not be
/// encoded: nothing without the message; with it, the initial configuration
/// is saved and the one sub-instantiation is emitted.
pub open spec fn begin_step(store: Option<ConfigView>, msg: InstantiateMsg, json: Option<Seq<u8>>) -> (
    Option<ConfigView>,
    Result<ResponseView, ErrorKind>,
) {
    match json {
        None => (store, Err(ErrorKind::Std)),
        Some(json) => (
            Some(initial_config(msg)),
            Ok(
                ResponseView {
                    messages: seq![ledger_instantiation(msg.cw721_code_id, json)],
                    attributes: Seq::empty(),
                },
            ),
        ),
    }
}

/// The encoded message the ledger is created with: always under
/// [`LEDGER_NAME`] and [`LEDGER_SYMBOL`], whatever the construction message
/// names, and with the contract at `contract_address` as its minter.
pub open spec fn ledger_init_json(contract_address: Seq<char>) -> Seq<u8> {
    instantiate_msg_json(LEDGER_NAME@, LEDGER_SYMBOL@, contract_address)
}

/// What a construction by the contract at `contract_address` does to the
/// store and answers. It always succeeds: the initial configuration is saved
/// and the ledger is asked for, under its fixed name and symbol and with
/// this contract as its minter.
pub open spec fn instantiate_step(store: Option<ConfigView>, contract_address: Seq<char>, msg: InstantiateMsg) -> (
    Option<ConfigView>,
    Result<ResponseView, ErrorKind>,
) {
    begin_step(store, msg, Some(ledger_init_json(contract_address)))
}

/// What a completion callback does to the store and answers: refused while
/// nothing was constructed, once a ledger is bound, under a foreign
/// correlation id, and without a readable instantiation response, in this
/// order; otherwise the ledger it names is bound.
pub open spec fn reply_step(store: Option<ConfigView>, callback: Callback) -> (
    Option<ConfigView>,
    Result<ResponseView, ErrorKind>,
) {
    match store {
        None => (store, Err(ErrorKind::Uninitialized)),
        Some(config) => if config.bound() {
            (store, Err(ErrorKind::Cw721AlreadyLinked))
        } else if callback.id != INSTANTIATE_REPLY_ID {
            (store, Err(ErrorKind::InvalidTokenReplyId))
        } else {
            match callback.ledger {
                None => (store, Err(ErrorKind::ParseReply)),
                Some(ledger) => (Some(config.bind(ledger)), Ok(ResponseView::empty())),
            }
        },
    }
}

/// The message that asks the bound ledger to mint.
pub open spec fn ledger_mint(ledger: Seq<char>, json: Seq<u8>) -> SubMsgView {
    SubMsgView::fire_and_forget(WasmMsgView::Execute { contract_addr: ledger, msg: json, funds: Seq::empty() })
}

/// The id the next issued token gets: the counter as a decimal numeral.
pub open spec fn next_token_id(config: ConfigView) -> Seq<char> {
    decimal(config.token_id as nat)
}

/// What issuing a token at the request of `sender` does to the store and
/// answers, given the encoded mint request or `None` where it could not be
/// encoded: refused while nothing was constructed, wherever the
/// authorization refuses, and without the request, in this order; otherwise
/// the request goes to the bound ledger and the counter moves on.
pub open spec fn issue_step(store: Option<ConfigView>, sender: Seq<char>, json: Option<Seq<u8>>) -> (
    Option<ConfigView>,
    Result<ResponseView, ErrorKind>,
) {
    match store {
        None => (store, Err(ErrorKind::Uninitialized)),
        Some(config) => match verdict(config, sender, false) {
            Err(kind) => (store, Err(kind)),
            Ok(_) => match json {
                None => (store, Err(ErrorKind::Std)),
                Some(json) => (
                    Some(config.issued()),
                    Ok(
                        ResponseView {
                            messages: seq![ledger_mint(config.cw721_address->0, json)],
                            attributes: seq![AttributeView { key: "action"@, value: "mint"@ }],
                        },
                    ),
                ),
            },
        },
    }
}

/// Whether the counter can move on where a mint request of `sender` is let
/// through. A request that is refused needs no room.
pub open spec fn room_to_issue(store: Option<ConfigView>, sender: Seq<char>) -> bool {
    match store {
        Some(config) => verdict(config, sender, false) is Ok ==> config.token_id < u64::MAX,
        None => true,
    }
}

/// The encoded request that mints the next token of `config` to `sender`:
/// the counter as its id, the configured URI and extension.
pub open spec fn next_mint_json(config: ConfigView, sender: Seq<char>) -> Seq<u8> {
    mint_msg_json(next_token_id(config), sender, Some(config.token_uri), config.extension is Some)
}

/// What a mint request of `sender` does to the store and answers: refused
/// while nothing was constructed and wherever the authorization refuses;
/// otherwise the token numbered by the counter is issued to the sender.
pub open spec fn mint_step(store: Option<ConfigView>, sender: Seq<char>) -> (
    Option<ConfigView>,
    Result<ResponseView, ErrorKind>,
) {
    match store {
        None => (store, Err(ErrorKind::Uninitialized)),
        Some(config) => issue_step(store, sender, Some(next_mint_json(config, sender))),
    }
}

/// An encoding with its bytes as a sequence, or `None` where it failed.
pub open spec fn encoded(json: Result<Vec<u8>, cosmwasm_std::StdError>) -> Option<Seq<u8>> {
    match json {
        Ok(bytes) => Some(bytes@),
        Err(_) => None,
    }
}

/// The callback with this correlation id and this decoded response.
pub open spec fn callback_with(
    correlation_id: u64,
    parsed: Result<MsgInstantiateContractResponse, cw_utils::ParseReplyError>,
) -> Callback {
    Callback {
        id: correlation_id,
        ledger: match parsed {
            Ok(response) => Some(response.contract_address@),
            Err(_) => None,
        },
    }
}

/// Begins the binding, given the encoded instantiation message of the
/// ledger: saves the initial configuration and emits the sub-instantiation.
/// Without the message nothing is saved and the encoder's error is the
/// answer.
pub fn begin_binding(store: &mut ConfigStore, msg: InstantiateMsg, json: Result<Vec<u8>, cosmwasm_std::StdError>) -> (res:
    Result<Response, ContractError>)
    ensures
        (final(store)@, outcome(res)) == begin_step(old(store)@, msg, encoded(json)),
        json matches Err(e) ==> res == Err::<Response, ContractError>(ContractError::Std(e)),
{
    let json = match json {
        Ok(json) => json,
        Err(e) => {
            return Err(ContractError::Std(e));
        },
    };
    let config = Config {
        cw721_address: None,
        policy: Policy::OptionalAdmin { admin: msg.admin, minter: msg.minter },
        token_id: 0,
        token_uri: msg.token_uri,
        extension: msg.extension,
    };
    store.save(config);
    let sub_msg = SubMsg::reply_on_success(
        wasm_instantiate(msg.cw721_code_id, json, Vec::new(), LEDGER_LABEL.to_owned()),
        INSTANTIATE_REPLY_ID,
    );
    let response = Response::new().add_submessage(sub_msg);
    proof {
        assert(sub_msg@.msg->Instantiate_funds =~= Seq::empty());
        assert(response@.messages =~= seq![ledger_instantiation(msg.cw721_code_id, json@)]);
    }
    Ok(response)
}

/// Constructs the contract: saves the initial configuration and asks the
/// host to create the ledger, under [`LEDGER_NAME`] and [`LEDGER_SYMBOL`] and
/// with this contract as the ledger's minter.
pub fn instantiate(store: &mut ConfigStore, contract_address: &str, msg: InstantiateMsg) -> (res: Result<
    Response,
    ContractError,
>)
    ensures
        res is Ok,
        (final(store)@, outcome(res)) == instantiate_step(old(store)@, contract_address@, msg),
{
    let json = instantiate_msg_to_binary(LEDGER_NAME, LEDGER_SYMBOL, contract_address);
    begin_binding(store, msg, json)
}

/// Completes the binding, given the correlation id of a callback and the
/// response decoded from it. Wherever the callback is refused the store
/// stays as it was; an undecodable response is refused with the decoder's
/// error.
pub fn complete_binding(
    store: &mut ConfigStore,
    correlation_id: u64,
    parsed: Result<MsgInstantiateContractResponse, cw_utils::ParseReplyError>,
) -> (res: Result<Response, ContractError>)
    ensures
        (final(store)@, outcome(res)) == reply_step(old(store)@, callback_with(correlation_id, parsed)),
        outcome(res) == Err::<ResponseView, ErrorKind>(ErrorKind::ParseReply) ==> (parsed matches Err(e) && res
            == Err::<Response, ContractError>(ContractError::ParseReply(e))),
{
    let mut config = match store.load() {
        Ok(config) => config,
        Err(e) => {
            return Err(e);
        },
    };
    if config.cw721_address.is_some() {
        return Err(ContractError::Cw721AlreadyLinked {  });
    }
    if correlation_id != INSTANTIATE_REPLY_ID {
        return Err(ContractError::InvalidTokenReplyId {  });
    }
    let parsed = match parsed {
        Ok(parsed) => parsed,
        Err(e) => {
            return Err(ContractError::ParseReply(e));
        },
    };
    config.cw721_address = Some(parsed.contract_address);
    store.save(config);
    Ok(Response::new())
}

/// Completes the binding on the callback of the sub-instantiation.
pub fn reply(store: &mut ConfigStore, msg: Reply) -> (res: Result<Response, ContractError>)
    ensures
        (final(store)@, outcome(res)) == reply_step(old(store)@, callback_of(msg)),
{
    let parsed = parse_reply_instantiate_data(&msg);
    complete_binding(store, msg.id, parsed)
}

/// Routes a mutating request.
pub fn execute(store: &mut ConfigStore, sender: &str, msg: ExecuteMsg) -> (res: Result<Response, ContractError>)
    requires
        room_to_issue(old(store)@, sender@),
    ensures
        (final(store)@, outcome(res)) == mint_step(old(store)@, sender@),
{
    match msg {
        ExecuteMsg::Mint {  } => mint(store, sender),
    }
}

/// Issues a token at the request of `sender`, given the encoded mint request
/// for the ledger: sends the request to the bound ledger and moves the
/// counter on. Wherever the request is refused the store stays as it was.
pub fn issue(store: &mut ConfigStore, sender: &str, json: Result<Vec<u8>, cosmwasm_std::StdError>) -> (res: Result<
    Response,
    ContractError,
>)
    requires
        json is Ok ==> room_to_issue(old(store)@, sender@),
    ensures
        (final(store)@, outcome(res)) == issue_step(old(store)@, sender@, encoded(json)),
        outcome(res) == Err::<ResponseView, ErrorKind>(ErrorKind::Std) ==> (json matches Err(e) && res == Err::<
            Response,
            ContractError,
        >(ContractError::Std(e))),
{
    let mut config = match store.load() {
        Ok(config) => config,
        Err(e) => {
            return Err(e);
        },
    };
    match authorize(&config, sender, false) {
        Ok(_) => {},
        Err(e) => {
            return Err(e);
        },
    }
    let ledger = match &config.cw721_address {
        Some(ledger) => ledger.clone(),
        None => {
            return Err(ContractError::Uninitialized {  });
        },
    };
    let json = match json {
        Ok(json) => json,
        Err(e) => {
            return Err(ContractError::Std(e));
        },
    };
    config.token_id = config.token_id + 1;
    store.save(config);
    let call = wasm_execute(ledger, json, Vec::new());
    let response = Response::new().add_message(call).add_attribute("action", "mint");
    proof {
        assert(call@->Execute_funds =~= Seq::empty());
        assert(response@.messages =~= seq![ledger_mint(ledger@, json@)]);
        assert(response@.attributes =~= seq![AttributeView { key: "action"@, value: "mint"@ }]);
    }
    Ok(response)
}

/// Issues the next token to `sender` on the bound ledger: the counter is its
/// id, the configured URI and extension are what it carries.
pub fn mint(store: &mut ConfigStore, sender: &str) -> (res: Result<Response, ContractError>)
    requires
        room_to_issue(old(store)@, sender@),
    ensures
        (final(store)@, outcome(res)) == mint_step(old(store)@, sender@),
{
    let json = match &store.record {
        Some(config) => {
            let token_id = to_decimal(config.token_id);
            let token_uri = Some(config.token_uri.clone());
            mint_msg_to_binary(token_id.as_str(), sender, &token_uri, &config.extension)
        },
        None => {
            return Err(ContractError::Uninitialized {  });
        },
    };
    issue(store, sender, json)
}

/// Answers a read-only request from the configuration.
pub fn query(store: &ConfigStore, msg: QueryMsg) -> (res: Result<QueryResponse, ContractError>)
    ensures
        match store.record {
            None => res == Err::<QueryResponse, ContractError>(ContractError::Uninitialized {  }),
            Some(config) => match msg {
                QueryMsg::Config {  } => res == Ok::<QueryResponse, ContractError>(QueryResponse::Config(config)),
                QueryMsg::Admin {  } => res matches Ok(QueryResponse::Admin(a)) && opt_str_view(a.admin)
                    == config@.policy.admin(),
            },
        },
{
    match msg {
        QueryMsg::Config {  } => match query_config(store) {
            Ok(config) => Ok(QueryResponse::Config(config)),
            Err(e) => Err(e),
        },
        QueryMsg::Admin {  } => match &store.record {
            Some(config) => Ok(QueryResponse::Admin(AdminResponse { admin: config.policy.admin() })),
            None => Err(ContractError::Uninitialized {  }),
        },
    }
}

/// Returns the contract's configuration.
pub fn query_config(store: &ConfigStore) -> (res: Result<Config, ContractError>)
    ensures
        res == store.loaded(),
{
    store.load()
}

} // verus!
