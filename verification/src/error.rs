//! The closed set of rejections a request can meet.

use vstd::prelude::*;

verus! {

/// `cosmwasm_std::StdError`, carried through unread.
#[verifier::external_type_specification]
#[verifier::external_body]
pub struct ExStdError(cosmwasm_std::StdError);

/// `cw_utils::ParseReplyError`, carried through unread.
#[verifier::external_type_specification]
#[verifier::external_body]
pub struct ExParseReplyError(cw_utils::ParseReplyError);

/// Why a caller was refused on grounds of ownership.
#[derive(Debug, PartialEq)]
pub enum OwnershipError {
    /// The caller is not the identity the policy names, or the request would
    /// move a token.
    NotOwner,
}

/// Every way a request can fail. Each one ends the operation it arose in.
#[derive(Debug, PartialEq)]
pub enum ContractError {
    /// A message for the ledger could not be encoded.
    Std(cosmwasm_std::StdError),
    /// No configuration exists yet, or no ledger is bound to it.
    Uninitialized {},
    /// A ledger is bound already.
    Cw721AlreadyLinked {},
    /// The callback does not answer the sub-instantiation this contract
    /// emitted.
    InvalidTokenReplyId {},
    /// The policy or the non-transferability rule refuses the request.
    Ownership(OwnershipError),
    /// The callback carries no readable instantiation response.
    ParseReply(cw_utils::ParseReplyError),
}

/// A [`ContractError`] without what it carries.
#[derive(Clone, Copy, Debug, PartialEq, Eq, Structural)]
pub enum ErrorKind {
    Std,
    Uninitialized,
    Cw721AlreadyLinked,
    InvalidTokenReplyId,
    NotOwner,
    ParseReply,
}

impl View for ContractError {
    type V = ErrorKind;

    open spec fn view(&self) -> ErrorKind {
        match *self {
            ContractError::Std(_) => ErrorKind::Std,
            ContractError::Uninitialized {  } => ErrorKind::Uninitialized,
            ContractError::Cw721AlreadyLinked {  } => ErrorKind::Cw721AlreadyLinked,
            ContractError::InvalidTokenReplyId {  } => ErrorKind::InvalidTokenReplyId,
            ContractError::Ownership(OwnershipError::NotOwner) => ErrorKind::NotOwner,
            ContractError::ParseReply(_) => ErrorKind::ParseReply,
        }
    }
}

impl ContractError {
    /// The kind of this error.
    pub fn kind(&self) -> (k: ErrorKind)
        ensures
            k == self@,
    {
        match self {
            ContractError::Std(_) => ErrorKind::Std,
            ContractError::Uninitialized {  } => ErrorKind::Uninitialized,
            ContractError::Cw721AlreadyLinked {  } => ErrorKind::Cw721AlreadyLinked,
            ContractError::InvalidTokenReplyId {  } => ErrorKind::InvalidTokenReplyId,
            ContractError::Ownership(OwnershipError::NotOwner) => ErrorKind::NotOwner,
            ContractError::ParseReply(_) => ErrorKind::ParseReply,
        }
    }
}

} // verus!
