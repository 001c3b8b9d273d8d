//! What the distributor answers: the messages that the host is to carry out
//! and the event that records what was decided.

use vstd::prelude::*;
use vstd::string::*;

verus! {

/// A key and a value recorded in an event.
#[derive(Clone, Debug, PartialEq, Eq)]
pub struct Attribute {
    pub key: String,
    pub value: String,
}

/// An attribute as a mathematical value.
pub struct AttributeView {
    pub key: Seq<char>,
    pub value: Seq<char>,
}

impl View for Attribute {
    type V = AttributeView;

    open spec fn view(&self) -> AttributeView {
        AttributeView { key: self.key@, value: self.value@ }
    }
}

/// A list of attributes as a sequence of mathematical values.
pub open spec fn attributes_view(attributes: Seq<Attribute>) -> Seq<AttributeView> {
    attributes.map_values(|a: Attribute| a@)
}

/// The attribute that pairs `key` with `value`.
pub fn attr(key: &str, value: &str) -> (a: Attribute)
    ensures
        a@ == (AttributeView { key: key@, value: value@ }),
{
    Attribute { key: key.to_owned(), value: value.to_owned() }
}

/// A named record of what an invocation did.
#[derive(Clone, Debug, PartialEq, Eq)]
pub struct Event {
    pub ty: String,
    pub attributes: Vec<Attribute>,
}

/// An event as a mathematical value.
pub struct EventView {
    pub ty: Seq<char>,
    pub attributes: Seq<AttributeView>,
}

impl View for Event {
    type V = EventView;

    open spec fn view(&self) -> EventView {
        EventView { ty: self.ty@, attributes: attributes_view(self.attributes@) }
    }
}

/// An instruction to the host's bank to send `amount` of `denom` from the
/// pool to `to_address`.
#[derive(Clone, Debug, PartialEq, Eq)]
pub struct SendMsg {
    pub to_address: String,
    pub denom: String,
    pub amount: u128,
}

/// A bank instruction as a mathematical value.
pub struct SendMsgView {
    pub to_address: Seq<char>,
    pub denom: Seq<char>,
    pub amount: nat,
}

impl View for SendMsg {
    type V = SendMsgView;

    open spec fn view(&self) -> SendMsgView {
        SendMsgView { to_address: self.to_address@, denom: self.denom@, amount: self.amount as nat }
    }
}

/// A list of bank instructions as a sequence of mathematical values.
pub open spec fn messages_view(messages: Seq<SendMsg>) -> Seq<SendMsgView> {
    messages.map_values(|m: SendMsg| m@)
}

/// The answer to an invocation: the bank instructions that the host carries
/// out together, in this order, and the event that it records.
#[derive(Clone, Debug, PartialEq, Eq)]
pub struct Response {
    pub messages: Vec<SendMsg>,
    pub events: Vec<Event>,
}

/// An answer as a mathematical value.
pub struct ResponseView {
    pub messages: Seq<SendMsgView>,
    pub events: Seq<EventView>,
}

impl View for Response {
    type V = ResponseView;

    open spec fn view(&self) -> ResponseView {
        ResponseView {
            messages: messages_view(self.messages@),
            events: self.events@.map_values(|e: Event| e@),
        }
    }
}

/// The name of the event that a contract emits for one kind of invocation.
pub open spec fn event_name(contract_name: Seq<char>, ty: Seq<char>) -> Seq<char> {
    contract_name + "-"@ + ty
}

/// The answer that carries no message and the one event named after
/// `contract_name` and `ty`, with `attrs` as its attributes.
pub open spec fn response_view(
    ty: Seq<char>,
    contract_name: Seq<char>,
    attrs: Seq<AttributeView>,
) -> ResponseView {
    ResponseView {
        messages: Seq::empty(),
        events: seq![EventView { ty: event_name(contract_name, ty), attributes: attrs }],
    }
}

/// Builds the answer to an invocation of kind `ty` of the contract
/// `contract_name`: no message, and one event with `attrs`.
pub fn response(ty: &str, contract_name: &str, attrs: Vec<Attribute>) -> (r: Response)
    ensures
        r@ == response_view(ty@, contract_name@, attributes_view(attrs@)),
{
    let name = String::from_str(contract_name).concat("-").concat(ty);
    let event = Event { ty: name, attributes: attrs };
    let mut events: Vec<Event> = Vec::new();
    events.push(event);
    let r = Response { messages: Vec::new(), events };
    assert(r@.messages =~= Seq::empty());
    assert(r@.events =~= seq![event@]);
    r
}

impl Response {
    /// The answer with `message` added behind its messages.
    pub fn add_message(self, message: SendMsg) -> (r: Response)
        ensures
            r@ == (ResponseView { messages: self@.messages.push(message@), events: self@.events }),
    {
        let mut r = self;
        r.messages.push(message);
        assert(r@.messages =~= self@.messages.push(message@));
        r
    }

    /// The answer with `messages` added, in their order, behind its messages.
    pub fn add_messages(self, messages: Vec<SendMsg>) -> (r: Response)
        ensures
            r@ == (ResponseView {
                messages: self@.messages + messages_view(messages@),
                events: self@.events,
            }),
    {
        let mut r = self;
        let mut more = messages;
        r.messages.append(&mut more);
        assert(r@.messages =~= self@.messages + messages_view(messages@));
        r
    }
}

} // verus!
