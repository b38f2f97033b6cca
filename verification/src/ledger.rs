//! The messages the token ledger accepts.
//!
//! The contract reads of a request only whether it would move a token; everything
//! else travels through unread.

use vstd::prelude::*;

verus! {

/// A message without content.
#[derive(Clone, Copy, Debug, PartialEq, Eq, Structural)]
pub struct Empty {}

/// When an approval or a pending ownership transfer lapses.
#[derive(Clone, Copy, Debug, PartialEq, Eq, Structural)]
pub enum Expiration {
    /// At this block height and after.
    AtHeight(u64),
    /// At this block time and after, in nanoseconds since the epoch.
    AtTime(u64),
    /// Never.
    Never {},
}

/// A change to who owns the ledger itself.
#[derive(Clone, Debug, PartialEq)]
pub enum Action {
    TransferOwnership { new_owner: String, expiry: Option<Expiration> },
    AcceptOwnership,
    RenounceOwnership,
}

/// What a ledger is created with.
#[derive(Clone, Debug, PartialEq)]
pub struct InstantiateMsg {
    /// Name of the collection.
    pub name: String,
    /// Symbol of the collection.
    pub symbol: String,
    /// The one identity the ledger lets mint.
    pub minter: String,
}

/// A mutating request to the ledger.
#[derive(Clone, Debug, PartialEq)]
#[allow(inconsistent_fields)]
pub enum ExecuteMsg<T, E> {
    /// Move a token to another account.
    TransferNft { recipient: String, token_id: String },
    /// Move a token to a contract and trigger an action there.
    SendNft { contract: String, token_id: String, msg: Vec<u8> },
    /// Let a spender move one token.
    Approve { spender: String, token_id: String, expires: Option<Expiration> },
    /// Withdraw an approval.
    Revoke { spender: String, token_id: String },
    /// Let an operator move every token of the caller.
    ApproveAll { operator: String, expires: Option<Expiration> },
    /// Withdraw an operator's permission.
    RevokeAll { operator: String },
    /// Create a token.
    Mint { token_id: String, owner: String, token_uri: Option<String>, extension: T },
    /// Destroy a token.
    Burn { token_id: String },
    /// A message of the ledger's extension.
    Extension { msg: E },
    /// Change who owns the ledger.
    UpdateOwnership(Action),
}

/// A read-only request to the ledger.
#[derive(Clone, Debug, PartialEq)]
pub enum QueryMsg<Q> {
    OwnerOf { token_id: String, include_expired: Option<bool> },
    Approval { token_id: String, spender: String, include_expired: Option<bool> },
    Approvals { token_id: String, include_expired: Option<bool> },
    Operator { owner: String, operator: String, include_expired: Option<bool> },
    AllOperators {
        owner: String,
        include_expired: Option<bool>,
        start_after: Option<String>,
        limit: Option<u32>,
    },
    NumTokens {},
    ContractInfo {},
    NftInfo { token_id: String },
    AllNftInfo { token_id: String, include_expired: Option<bool> },
    Tokens { owner: String, start_after: Option<String>, limit: Option<u32> },
    AllTokens { start_after: Option<String>, limit: Option<u32> },
    Minter {},
    Extension { msg: Q },
    Ownership {},
}

impl<T, E> ExecuteMsg<T, E> {
    /// Whether the request would change who owns a token: a transfer to an
    /// account or a send to a contract.
    pub open spec fn spec_moves_token(&self) -> bool {
        self is TransferNft || self is SendNft
    }

    /// Tells whether the request would change who owns a token.
    #[verifier::when_used_as_spec(spec_moves_token)]
    pub fn moves_token(&self) -> (moves: bool)
        ensures
            moves == self.spec_moves_token(),
    {
        match self {
            ExecuteMsg::TransferNft { .. } => true,
            ExecuteMsg::SendNft { .. } => true,
            _ => false,
        }
    }
}

} // verus!
