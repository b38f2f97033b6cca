//! The authorization every mutating request has to pass.

use vstd::prelude::*;
use crate::error::{ContractError, ErrorKind, OwnershipError};
use crate::state::{Config, ConfigView};

verus! {

/// What is decided for a request of `caller` under `config`: refused
/// as uninitialized while no ledger is bound; once one is, refused as not
/// authorized unless the caller satisfies the policy and the request moves no
/// token; otherwise let through.
pub open spec fn verdict(config: ConfigView, caller: Seq<char>, moves_token: bool) -> Result<(), ErrorKind> {
    if !config.bound() {
        Err(ErrorKind::Uninitialized)
    } else if !config.policy.allows(caller) || moves_token {
        Err(ErrorKind::NotOwner)
    } else {
        Ok(())
    }
}

/// A result with its error reduced to its kind.
pub open spec fn kind_of<T>(res: Result<T, ContractError>) -> Result<T, ErrorKind> {
    match res {
        Ok(v) => Ok(v),
        Err(e) => Err(e@),
    }
}

/// Decides a request: the binding state first, then the policy, then the
/// non-transferability rule. Nothing is changed.
pub fn authorize(config: &Config, caller: &str, moves_token: bool) -> (res: Result<(), ContractError>)
    ensures
        kind_of(res) == verdict(config@, caller@, moves_token),
{
    if config.cw721_address.is_none() {
        return Err(ContractError::Uninitialized {  });
    }
    if !config.policy.allows(caller) {
        return Err(ContractError::Ownership(OwnershipError::NotOwner));
    }
    if moves_token {
        return Err(ContractError::Ownership(OwnershipError::NotOwner));
    }
    Ok(())
}

} // verus!
