//! The contract that is its own ledger: one owner, named at construction,
//! issues tokens that carry their metadata and can never be moved.
//!
//! The handlers decide; the ledger itself is the caller's to run. A request
//! that is let through comes back unchanged, to be handed to the ledger
//! verbatim, and the ledger's answer is the answer.

use vstd::prelude::*;
use crate::error::{ContractError, ErrorKind};
use crate::guard::{authorize, verdict, kind_of};
use crate::ledger;
use crate::ledger::{Empty, InstantiateMsg};
use crate::metadata::Extension;
use crate::response::{AttributeView, Response, ResponseView};
use crate::state::{Config, ConfigStore, ConfigView, Policy, PolicyView};

verus! {

/// The name this contract records itself under.
pub const CONTRACT_NAME: &'static str = "crates.io:cw721-non-transferable-with-metadata-onchain";

/// The version this contract records itself under.
pub const CONTRACT_VERSION: &'static str = "0.1.0";

/// A mutating request: the ledger's, with metadata as the mint extension.
pub type ExecuteMsg = ledger::ExecuteMsg<Extension, Empty>;

/// A read-only request: the ledger's.
pub type QueryMsg = ledger::QueryMsg<Empty>;

/// The configuration a construction by `sender` saves: the contract itself
/// as the bound ledger, `sender` as the single owner.
pub open spec fn owned_config(contract_address: Seq<char>, sender: Seq<char>) -> ConfigView {
    ConfigView {
        cw721_address: Some(contract_address),
        policy: PolicyView::SingleOwner { owner: sender },
        token_id: 0,
        token_uri: Seq::empty(),
        extension: None,
    }
}

/// What is decided for a request under the stored configuration:
/// refused as uninitialized while nothing was constructed, else what the
/// authorization says.
pub open spec fn execute_verdict(store: Option<ConfigView>, sender: Seq<char>, moves_token: bool) -> Result<
    (),
    ErrorKind,
> {
    match store {
        None => Err(ErrorKind::Uninitialized),
        Some(config) => verdict(config, sender, moves_token),
    }
}

/// Constructs the contract with `sender` as its owner. Returns what the
/// ledger is to be created with, `sender` as its minter whatever the message
/// names, and the response that records the contract's name and version.
pub fn instantiate(store: &mut ConfigStore, contract_address: &str, sender: &str, msg: InstantiateMsg) -> (out: (
    InstantiateMsg,
    Response,
))
    ensures
        final(store)@ == Some(owned_config(contract_address@, sender@)),
        out.0.name == msg.name,
        out.0.symbol == msg.symbol,
        out.0.minter@ == sender@,
        out.1@ == (ResponseView {
            messages: Seq::empty(),
            attributes: seq![
                AttributeView { key: "contract_name"@, value: CONTRACT_NAME@ },
                AttributeView { key: "contract_version"@, value: CONTRACT_VERSION@ },
            ],
        }),
{
    let config = Config {
        cw721_address: Some(contract_address.to_owned()),
        policy: Policy::SingleOwner { owner: sender.to_owned() },
        token_id: 0,
        token_uri: String::new(),
        extension: None,
    };
    store.save(config);
    let ledger_msg = InstantiateMsg { name: msg.name, symbol: msg.symbol, minter: sender.to_owned() };
    let response = Response::new().add_attribute("contract_name", CONTRACT_NAME).add_attribute(
        "contract_version",
        CONTRACT_VERSION,
    );
    proof {
        assert(response@.attributes =~= seq![
            AttributeView { key: "contract_name"@, value: CONTRACT_NAME@ },
            AttributeView { key: "contract_version"@, value: CONTRACT_VERSION@ },
        ]);
    }
    (ledger_msg, response)
}

/// Decides a mutating request. It comes back unchanged exactly where it is
/// let through; the store is only read.
pub fn execute(store: &ConfigStore, sender: &str, msg: ExecuteMsg) -> (res: Result<ExecuteMsg, ContractError>)
    ensures
        kind_of(res) == match execute_verdict(store@, sender@, msg.moves_token()) {
            Ok(_) => Ok::<ExecuteMsg, ErrorKind>(msg),
            Err(kind) => Err::<ExecuteMsg, ErrorKind>(kind),
        },
{
    let config = match &store.record {
        Some(config) => config,
        None => {
            return Err(ContractError::Uninitialized {  });
        },
    };
    match authorize(config, sender, msg.moves_token()) {
        Ok(_) => Ok(msg),
        Err(e) => Err(e),
    }
}

/// Passes a read-only request on: queries are never refused.
pub fn query(msg: QueryMsg) -> (forwarded: QueryMsg)
    ensures
        forwarded == msg,
{
    msg
}

} // verus!
