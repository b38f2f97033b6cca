//! The completion callback of a sub-instantiation, and what it carries.

use vstd::prelude::*;

verus! {

/// What a sub-message that ran to its end hands back.
#[derive(Debug)]
pub struct SubMsgResponse {
    pub data: Option<Vec<u8>>,
}

/// The callback the host delivers for an emitted sub-message.
#[derive(Debug)]
pub struct Reply {
    /// The correlation id the sub-message was emitted with.
    pub id: u64,
    /// The outcome of the sub-message: its response, or the failure text.
    pub result: Result<SubMsgResponse, String>,
}

/// The decoded response of a contract instantiation.
#[derive(Debug)]
pub struct MsgInstantiateContractResponse {
    pub contract_address: String,
    pub data: Option<Vec<u8>>,
}

impl View for MsgInstantiateContractResponse {
    type V = (Seq<char>, Option<Seq<u8>>);

    open spec fn view(&self) -> (Seq<char>, Option<Seq<u8>>) {
        (
            self.contract_address@,
            match self.data {
                Some(d) => Some(d@),
                None => None,
            },
        )
    }
}

/// The instantiation response that `cw_utils::parse_reply_instantiate_data`
/// decodes from the data bytes of a successful reply: the new contract's
/// address and the optional payload, or `None` where the bytes are no such
/// response. The decoder narrows a length prefix to `usize`, so the width of
/// that type is an argument.
pub uninterp spec fn instantiate_reply_data(data: Seq<u8>, usize_bits: u32) -> Option<(Seq<char>, Option<Seq<u8>>)>;

/// What the contract reads of a [`Reply`]: its correlation id, and the
/// address of the contract it reports as created, where it reports one.
pub struct Callback {
    pub id: u64,
    pub ledger: Option<Seq<char>>,
}

/// The callback a reply amounts to. It names a ledger exactly where the
/// sub-message succeeded and its data decode to an instantiation response.
pub open spec fn callback_of(reply: Reply) -> Callback {
    Callback {
        id: reply.id,
        ledger: match reply.result {
            Ok(SubMsgResponse { data: Some(d) }) => match instantiate_reply_data(d@, usize::BITS) {
                Some(response) => Some(response.0),
                None => None,
            },
            _ => None,
        },
    }
}

/// Calls `cw_utils::parse_reply_instantiate_data` on the reply.
///
/// Trusted: a failed sub-message and a reply without data are refused; a
/// reply with data is decoded to what [`instantiate_reply_data`] names, and
/// refused exactly where that is `None`.
#[verifier::external_body]
pub(crate) fn parse_reply_instantiate_data(reply: &Reply) -> (res: Result<
    MsgInstantiateContractResponse,
    cw_utils::ParseReplyError,
>)
    ensures
        reply.result is Err ==> res is Err,
        reply.result matches Ok(r) && r.data is None ==> res is Err,
        reply.result matches Ok(r) && r.data matches Some(d) ==> match res {
            Ok(v) => instantiate_reply_data(d@, usize::BITS) == Some(v@),
            Err(_) => instantiate_reply_data(d@, usize::BITS) is None,
        },
{
    let result = match &reply.result {
        Ok(r) => cosmwasm_std::SubMsgResult::Ok(
            cosmwasm_std::SubMsgResponse { events: Vec::new(), data: r.data.clone().map(cosmwasm_std::Binary) },
        ),
        Err(e) => cosmwasm_std::SubMsgResult::Err(e.clone()),
    };
    let parsed = cw_utils::parse_reply_instantiate_data(cosmwasm_std::Reply { id: reply.id, result })?;
    Ok(MsgInstantiateContractResponse { contract_address: parsed.contract_address, data: parsed.data.map(|b| b.0) })
}

} // verus!
