//! What a handler hands back to the host: messages to dispatch and
//! attributes to record.

use vstd::prelude::*;
use crate::text::opt_str_view;

verus! {

/// An amount of one denomination.
#[derive(Clone, Debug, PartialEq)]
pub struct Coin {
    pub denom: String,
    pub amount: u128,
}

/// A key and a value recorded with the handled request.
#[derive(Clone, Debug, PartialEq)]
pub struct Attribute {
    pub key: String,
    pub value: String,
}

/// A call to another contract, its message already encoded.
#[derive(Clone, Debug, PartialEq)]
pub enum WasmMsg {
    /// Call the contract at `contract_addr`.
    Execute { contract_addr: String, msg: Vec<u8>, funds: Vec<Coin> },
    /// Create a contract from stored code.
    Instantiate { admin: Option<String>, code_id: u64, msg: Vec<u8>, funds: Vec<Coin>, label: String },
}

/// On which outcome of a sub-message the host calls back.
#[derive(Clone, Copy, Debug, PartialEq, Eq, Structural)]
pub enum ReplyOn {
    Always,
    Error,
    Success,
    Never,
}

/// A message for the host to dispatch, and whether to call back.
#[derive(Clone, Debug, PartialEq)]
pub struct SubMsg {
    /// The correlation id a callback will carry.
    pub id: u64,
    pub msg: WasmMsg,
    pub gas_limit: Option<u64>,
    pub reply_on: ReplyOn,
}

/// The answer of a handler that succeeded.
#[derive(Clone, Debug, PartialEq)]
pub struct Response {
    pub messages: Vec<SubMsg>,
    pub attributes: Vec<Attribute>,
}

/// The id of a message that asks for no callback.
pub const UNUSED_MSG_ID: u64 = 0;

pub struct CoinView {
    pub denom: Seq<char>,
    pub amount: u128,
}

pub struct AttributeView {
    pub key: Seq<char>,
    pub value: Seq<char>,
}

pub enum WasmMsgView {
    Execute { contract_addr: Seq<char>, msg: Seq<u8>, funds: Seq<CoinView> },
    Instantiate {
        admin: Option<Seq<char>>,
        code_id: u64,
        msg: Seq<u8>,
        funds: Seq<CoinView>,
        label: Seq<char>,
    },
}

pub struct SubMsgView {
    pub id: u64,
    pub msg: WasmMsgView,
    pub gas_limit: Option<u64>,
    pub reply_on: ReplyOn,
}

pub struct ResponseView {
    pub messages: Seq<SubMsgView>,
    pub attributes: Seq<AttributeView>,
}

impl View for Coin {
    type V = CoinView;

    open spec fn view(&self) -> CoinView {
        CoinView { denom: self.denom@, amount: self.amount }
    }
}

impl View for Attribute {
    type V = AttributeView;

    open spec fn view(&self) -> AttributeView {
        AttributeView { key: self.key@, value: self.value@ }
    }
}

impl View for WasmMsg {
    type V = WasmMsgView;

    open spec fn view(&self) -> WasmMsgView {
        match *self {
            WasmMsg::Execute { contract_addr, msg, funds } => WasmMsgView::Execute {
                contract_addr: contract_addr@,
                msg: msg@,
                funds: funds@.map_values(|c: Coin| c@),
            },
            WasmMsg::Instantiate { admin, code_id, msg, funds, label } => WasmMsgView::Instantiate {
                admin: opt_str_view(admin),
                code_id,
                msg: msg@,
                funds: funds@.map_values(|c: Coin| c@),
                label: label@,
            },
        }
    }
}

impl View for SubMsg {
    type V = SubMsgView;

    open spec fn view(&self) -> SubMsgView {
        SubMsgView { id: self.id, msg: self.msg@, gas_limit: self.gas_limit, reply_on: self.reply_on }
    }
}

impl View for Response {
    type V = ResponseView;

    open spec fn view(&self) -> ResponseView {
        ResponseView {
            messages: self.messages@.map_values(|m: SubMsg| m@),
            attributes: self.attributes@.map_values(|a: Attribute| a@),
        }
    }
}

impl ResponseView {
    /// The response that dispatches and records nothing.
    pub open spec fn empty() -> ResponseView {
        ResponseView { messages: Seq::empty(), attributes: Seq::empty() }
    }
}

impl SubMsgView {
    /// The message that asks for no callback.
    pub open spec fn fire_and_forget(msg: WasmMsgView) -> SubMsgView {
        SubMsgView { id: UNUSED_MSG_ID, msg, gas_limit: None, reply_on: ReplyOn::Never }
    }

    /// The message whose success the host reports under `id`.
    pub open spec fn on_success(msg: WasmMsgView, id: u64) -> SubMsgView {
        SubMsgView { id, msg, gas_limit: None, reply_on: ReplyOn::Success }
    }
}

/// Frames an encoded instantiation message: no admin, the given code, funds
/// and label.
pub fn wasm_instantiate(code_id: u64, msg: Vec<u8>, funds: Vec<Coin>, label: String) -> (m: WasmMsg)
    ensures
        m@ == (WasmMsgView::Instantiate {
            admin: None,
            code_id,
            msg: msg@,
            funds: funds@.map_values(|c: Coin| c@),
            label: label@,
        }),
{
    WasmMsg::Instantiate { admin: None, code_id, msg, funds, label }
}

/// Frames an encoded message for the contract at `contract_addr`.
pub fn wasm_execute(contract_addr: String, msg: Vec<u8>, funds: Vec<Coin>) -> (m: WasmMsg)
    ensures
        m@ == (WasmMsgView::Execute {
            contract_addr: contract_addr@,
            msg: msg@,
            funds: funds@.map_values(|c: Coin| c@),
        }),
{
    WasmMsg::Execute { contract_addr, msg, funds }
}

impl SubMsg {
    /// A message dispatched without a callback.
    pub fn new(msg: WasmMsg) -> (m: SubMsg)
        ensures
            m@ == SubMsgView::fire_and_forget(msg@),
    {
        SubMsg { id: UNUSED_MSG_ID, msg, gas_limit: None, reply_on: ReplyOn::Never }
    }

    /// A message whose success the host reports back under `id`.
    pub fn reply_on_success(msg: WasmMsg, id: u64) -> (m: SubMsg)
        ensures
            m@ == SubMsgView::on_success(msg@, id),
    {
        SubMsg { id, msg, gas_limit: None, reply_on: ReplyOn::Success }
    }
}

impl Response {
    /// The response that dispatches and records nothing.
    pub fn new() -> (r: Response)
        ensures
            r@ == ResponseView::empty(),
    {
        let r = Response { messages: Vec::new(), attributes: Vec::new() };
        assert(r@.messages =~= Seq::empty());
        assert(r@.attributes =~= Seq::empty());
        r
    }

    /// Appends a message for the host to dispatch.
    pub fn add_submessage(self, msg: SubMsg) -> (r: Response)
        ensures
            r@ == (ResponseView { messages: self@.messages.push(msg@), attributes: self@.attributes }),
    {
        let mut r = self;
        r.messages.push(msg);
        assert(r@.messages =~= self@.messages.push(msg@));
        r
    }

    /// Appends a message that asks for no callback.
    pub fn add_message(self, msg: WasmMsg) -> (r: Response)
        ensures
            r@ == (ResponseView {
                messages: self@.messages.push(SubMsgView::fire_and_forget(msg@)),
                attributes: self@.attributes,
            }),
    {
        self.add_submessage(SubMsg::new(msg))
    }

    /// Appends an attribute.
    pub fn add_attribute(self, key: &str, value: &str) -> (r: Response)
        ensures
            r@ == (ResponseView {
                messages: self@.messages,
                attributes: self@.attributes.push(AttributeView { key: key@, value: value@ }),
            }),
    {
        let mut r = self;
        let a = Attribute { key: key.to_owned(), value: value.to_owned() };
        r.attributes.push(a);
        assert(r@.attributes =~= self@.attributes.push(a@));
        r
    }
}

} // verus!
