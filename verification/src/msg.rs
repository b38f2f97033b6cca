//! The messages of the contract that issues tokens on a ledger of its own.

use vstd::prelude::*;
use crate::ledger::Empty;
use crate::state::Config;

verus! {

/// What the contract is constructed with.
#[derive(Clone, Debug, PartialEq)]
pub struct InstantiateMsg {
    /// The only identity that may issue tokens, if one is named.
    pub admin: Option<String>,
    /// A name the caller gives the collection. The ledger is created under
    /// a fixed name; this one is not read.
    pub name: String,
    /// A symbol the caller gives the collection. The ledger is created under
    /// a fixed symbol; this one is not read.
    pub symbol: String,
    /// The identity that may issue tokens where no admin is named.
    pub minter: String,
    /// The stored code the ledger is created from.
    pub cw721_code_id: u64,
    /// The URI every issued token points to.
    pub token_uri: String,
    /// The extension every issued token carries.
    pub extension: Option<Empty>,
}

/// A mutating request.
#[derive(Clone, Copy, Debug, PartialEq, Eq, Structural)]
pub enum ExecuteMsg {
    /// Issue the next token to the caller.
    Mint {},
}

/// A read-only request answered from the configuration.
#[derive(Clone, Copy, Debug, PartialEq, Eq, Structural)]
pub enum QueryMsg {
    /// The whole configuration.
    Config {},
    /// The identity that administers issuance.
    Admin {},
}

/// The answer to an admin query.
#[derive(Debug)]
pub struct AdminResponse {
    pub admin: Option<String>,
}

/// The answer to a [`QueryMsg`].
#[derive(Debug)]
pub enum QueryResponse {
    Config(Config),
    Admin(AdminResponse),
}

} // verus!
