//! The encoded messages this contract sends to its ledger.

use vstd::prelude::*;
use crate::ledger::Empty;
use crate::text::opt_str_view;

verus! {

/// The JSON text of the ledger's instantiation message with these fields, as
/// `cosmwasm_std::to_json_binary` writes it.
pub uninterp spec fn instantiate_msg_json(name: Seq<char>, symbol: Seq<char>, minter: Seq<char>) -> Seq<u8>;

/// The JSON text of the ledger's mint request with these fields, with or
/// without an (empty) extension, as `cosmwasm_std::to_json_binary` writes it.
pub uninterp spec fn mint_msg_json(
    token_id: Seq<char>,
    owner: Seq<char>,
    token_uri: Option<Seq<char>>,
    with_extension: bool,
) -> Seq<u8>;

/// Calls `cosmwasm_std::to_json_binary` on the `cw721_base::InstantiateMsg`
/// with these fields.
///
/// Trusted: the call succeeds, since the encoder refuses no struct of
/// strings, and the bytes are what [`instantiate_msg_json`] names.
#[verifier::external_body]
pub(crate) fn instantiate_msg_to_binary(name: &str, symbol: &str, minter: &str) -> (res: Result<
    Vec<u8>,
    cosmwasm_std::StdError,
>)
    ensures
        res is Ok,
        res->Ok_0@ == instantiate_msg_json(name@, symbol@, minter@),
{
    let init = cw721_base::InstantiateMsg {
        name: name.to_owned(),
        symbol: symbol.to_owned(),
        minter: minter.to_owned(),
    };
    cosmwasm_std::to_json_binary(&init).map(|b| b.0)
}

/// Calls `cosmwasm_std::to_json_binary` on the `cw721_base::ExecuteMsg::Mint`
/// with these fields, for a ledger without metadata.
///
/// Trusted: the call succeeds, since the encoder refuses no strings, no
/// optional string and no optional empty struct, and the bytes are what
/// [`mint_msg_json`] names.
#[verifier::external_body]
pub(crate) fn mint_msg_to_binary(
    token_id: &str,
    owner: &str,
    token_uri: &Option<String>,
    extension: &Option<Empty>,
) -> (res: Result<Vec<u8>, cosmwasm_std::StdError>)
    ensures
        res is Ok,
        res->Ok_0@ == mint_msg_json(token_id@, owner@, opt_str_view(*token_uri), extension is Some),
{
    let mint = cw721_base::ExecuteMsg::<Option<cosmwasm_std::Empty>, cosmwasm_std::Empty>::Mint {
        token_id: token_id.to_owned(),
        owner: owner.to_owned(),
        token_uri: token_uri.clone(),
        extension: extension.map(|_| cosmwasm_std::Empty {}),
    };
    cosmwasm_std::to_json_binary(&mint).map(|b| b.0)
}

} // verus!
