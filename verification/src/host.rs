//! Plain values that a contract exchanges with its host chain: the caller and
//! the funds of a call, and the attributes and messages of a response.

use vstd::prelude::*;

verus! {

/// An amount of a native denom.
#[derive(Debug, Clone, PartialEq, Eq)]
pub struct Coin {
    pub denom: String,
    pub amount: u128,
}

pub struct CoinView {
    pub denom: Seq<char>,
    pub amount: nat,
}

impl View for Coin {
    type V = CoinView;

    open spec fn view(&self) -> CoinView {
        CoinView { denom: self.denom@, amount: self.amount as nat }
    }
}

impl Coin {
    pub fn new(amount: u128, denom: String) -> (c: Coin)
        ensures
            c@ == (CoinView { denom: denom@, amount: amount as nat }),
    {
        Coin { denom, amount }
    }
}

/// The views of a sequence of coins, in order.
pub open spec fn coins_view(coins: Seq<Coin>) -> Seq<CoinView> {
    coins.map_values(|c: Coin| c@)
}

/// A key and a value attached to a response.
#[derive(Debug, Clone, PartialEq, Eq)]
pub struct Attribute {
    pub key: String,
    pub value: String,
}

pub struct AttributeView {
    pub key: Seq<char>,
    pub value: Seq<char>,
}

impl View for Attribute {
    type V = AttributeView;

    open spec fn view(&self) -> AttributeView {
        AttributeView { key: self.key@, value: self.value@ }
    }
}

/// The attribute with the given key and value.
pub open spec fn attr_view(key: Seq<char>, value: Seq<char>) -> AttributeView {
    AttributeView { key, value }
}

pub fn attr(key: &str, value: String) -> (a: Attribute)
    ensures
        a@ == attr_view(key@, value@),
{
    Attribute { key: key.to_owned(), value }
}

/// The views of a sequence of attributes, in order.
pub open spec fn attrs_view(attrs: Seq<Attribute>) -> Seq<AttributeView> {
    attrs.map_values(|a: Attribute| a@)
}

/// The contract that is running.
#[derive(Debug, Clone, PartialEq, Eq)]
pub struct Env {
    pub contract_address: String,
}

pub struct EnvView {
    pub contract_address: Seq<char>,
}

impl View for Env {
    type V = EnvView;

    open spec fn view(&self) -> EnvView {
        EnvView { contract_address: self.contract_address@ }
    }
}

/// Who called, and with which funds.
#[derive(Debug, Clone, PartialEq, Eq)]
pub struct MessageInfo {
    pub sender: String,
    pub funds: Vec<Coin>,
}

pub struct MessageInfoView {
    pub sender: Seq<char>,
    pub funds: Seq<CoinView>,
}

impl View for MessageInfo {
    type V = MessageInfoView;

    open spec fn view(&self) -> MessageInfoView {
        MessageInfoView { sender: self.sender@, funds: coins_view(self.funds@) }
    }
}

/// A message that the host carries out once the call has succeeded.
#[derive(Debug, Clone, PartialEq, Eq)]
pub enum CosmosMsg {
    /// A protobuf message for a module of the chain.
    Stargate { type_url: String, value: Vec<u8> },
    /// A request to an indexer to register `denom` for the sending contract.
    RegisterDenom { indexer: String, denom: String },
}

pub enum CosmosMsgView {
    Stargate { type_url: Seq<char>, value: Seq<u8> },
    RegisterDenom { indexer: Seq<char>, denom: Seq<char> },
}

impl View for CosmosMsg {
    type V = CosmosMsgView;

    open spec fn view(&self) -> CosmosMsgView {
        match *self {
            CosmosMsg::Stargate { type_url, value } => CosmosMsgView::Stargate {
                type_url: type_url@,
                value: value@,
            },
            CosmosMsg::RegisterDenom { indexer, denom } => CosmosMsgView::RegisterDenom {
                indexer: indexer@,
                denom: denom@,
            },
        }
    }
}

/// The views of a sequence of messages, in order.
pub open spec fn msgs_view(msgs: Seq<CosmosMsg>) -> Seq<CosmosMsgView> {
    msgs.map_values(|m: CosmosMsg| m@)
}

/// What a successful call hands back to the host.
#[derive(Debug, Clone, PartialEq, Eq)]
pub struct Response {
    pub attributes: Vec<Attribute>,
    pub messages: Vec<CosmosMsg>,
}

pub struct ResponseView {
    pub attributes: Seq<AttributeView>,
    pub messages: Seq<CosmosMsgView>,
}

impl View for Response {
    type V = ResponseView;

    open spec fn view(&self) -> ResponseView {
        ResponseView {
            attributes: attrs_view(self.attributes@),
            messages: msgs_view(self.messages@),
        }
    }
}

impl Response {
    pub fn new() -> (r: Response)
        ensures
            r@ == (ResponseView { attributes: Seq::empty(), messages: Seq::empty() }),
    {
        let r = Response { attributes: Vec::new(), messages: Vec::new() };
        assert(attrs_view(r.attributes@) =~= Seq::empty());
        assert(msgs_view(r.messages@) =~= Seq::empty());
        r
    }

    pub fn add_attribute(self, key: &str, value: String) -> (r: Response)
        ensures
            r@ == (ResponseView {
                attributes: self@.attributes.push(attr_view(key@, value@)),
                messages: self@.messages,
            }),
    {
        let mut r = self;
        let a = attr(key, value);
        r.attributes.push(a);
        assert(attrs_view(r.attributes@) =~= self@.attributes.push(attr_view(key@, value@)));
        r
    }

    pub fn add_attributes(self, attrs: Vec<Attribute>) -> (r: Response)
        ensures
            r@ == (ResponseView {
                attributes: self@.attributes + attrs_view(attrs@),
                messages: self@.messages,
            }),
    {
        let mut r = self;
        let mut attrs = attrs;
        let ghost added = attrs@;
        r.attributes.append(&mut attrs);
        assert(attrs_view(r.attributes@) =~= self@.attributes + attrs_view(added));
        r
    }

    pub fn add_message(self, msg: CosmosMsg) -> (r: Response)
        ensures
            r@ == (ResponseView {
                attributes: self@.attributes,
                messages: self@.messages.push(msg@),
            }),
    {
        let mut r = self;
        r.messages.push(msg);
        assert(msgs_view(r.messages@) =~= self@.messages.push(msg@));
        r
    }

    pub fn add_messages(self, msgs: Vec<CosmosMsg>) -> (r: Response)
        ensures
            r@ == (ResponseView {
                attributes: self@.attributes,
                messages: self@.messages + msgs_view(msgs@),
            }),
    {
        let mut r = self;
        let mut msgs = msgs;
        let ghost added = msgs@;
        r.messages.append(&mut msgs);
        assert(msgs_view(r.messages@) =~= self@.messages + msgs_view(added));
        r
    }
}

} // verus!
