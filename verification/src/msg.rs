//! The messages that the time gate takes and the answers that it gives.

use vstd::prelude::*;
use crate::cycle_start::CycleStartTime;

verus! {

/// What initializes a time gate.
#[derive(Clone, Debug, PartialEq, Eq)]
pub struct InstantiateMsg {
    /// The start of the cycle.
    pub cycle_start_time: CycleStartTime,
    /// The destinations, in rotation order.
    pub gate_addresses: Vec<String>,
    /// The width of a slot in seconds; the default applies where it is absent.
    pub time_interval: Option<u64>,
}

/// The three changes that the owner can make, each to one field.
#[derive(Clone, Debug, PartialEq, Eq)]
pub enum ExecuteMsg {
    UpdateCycleStartTime { cycle_start_time: CycleStartTime },
    UpdateGateAddresses { new_gate_addresses: Vec<String> },
    UpdateTimeInterval { time_interval: u64 },
}

/// The four questions that anyone can ask.
#[derive(Clone, Copy, Debug, PartialEq, Eq, Structural)]
pub enum QueryMsg {
    GetCurrentAdoPath,
    GetCycleStartTime,
    GetGateAddresses,
    GetTimeInterval,
}

/// The answer to a question, one variant for each.
#[derive(Clone, Debug, PartialEq, Eq)]
pub enum QueryResponse {
    /// The destination that is active now, as it was configured.
    CurrentAdoPath(String),
    CycleStartTime(CycleStartTime),
    GateAddresses(Vec<String>),
    /// The interval in seconds, in decimal notation.
    TimeInterval(String),
}

/// What a change reads of its surroundings: who sent it, and what the
/// ownership registry answered when asked whether the sender is the owner.
#[derive(Clone, Debug, PartialEq, Eq)]
pub struct ExecuteContext {
    pub sender: String,
    pub sender_is_owner: bool,
}

/// One key and value of an acknowledgment.
#[derive(Clone, Debug, PartialEq, Eq)]
pub struct Attribute {
    pub key: String,
    pub value: String,
}

/// A named group of attributes.
#[derive(Clone, Debug, PartialEq, Eq)]
pub struct Event {
    pub ty: String,
    pub attributes: Vec<Attribute>,
}

/// What a successful call hands back: messages to be sent on, of whatever
/// type `M` the host sends, the attributes of the call, and events.
#[derive(Clone, Debug, PartialEq, Eq)]
pub struct Response<M> {
    pub messages: Vec<M>,
    pub attributes: Vec<Attribute>,
    pub events: Vec<Event>,
}

/// An attribute as its characters.
pub struct AttributeView {
    pub key: Seq<char>,
    pub value: Seq<char>,
}

/// An event as its characters.
pub struct EventView {
    pub ty: Seq<char>,
    pub attributes: Seq<AttributeView>,
}

/// A response as contracts speak of it.
pub struct ResponseView<M> {
    pub messages: Seq<M>,
    pub attributes: Seq<AttributeView>,
    pub events: Seq<EventView>,
}

/// The attributes of a list, each as its characters, in the order of the list.
pub open spec fn attributes_view(attributes: Seq<Attribute>) -> Seq<AttributeView> {
    attributes.map_values(|attribute: Attribute| attribute@)
}

/// The events of a list, each as its characters, in the order of the list.
pub open spec fn events_view(events: Seq<Event>) -> Seq<EventView> {
    events.map_values(|event: Event| event@)
}

impl View for Attribute {
    type V = AttributeView;

    open spec fn view(&self) -> AttributeView {
        AttributeView { key: self.key@, value: self.value@ }
    }
}

impl View for Event {
    type V = EventView;

    open spec fn view(&self) -> EventView {
        EventView { ty: self.ty@, attributes: attributes_view(self.attributes@) }
    }
}

impl<M> View for Response<M> {
    type V = ResponseView<M>;

    open spec fn view(&self) -> ResponseView<M> {
        ResponseView {
            messages: self.messages@,
            attributes: attributes_view(self.attributes@),
            events: events_view(self.events@),
        }
    }
}

impl<M> ResponseView<M> {
    /// The response with nothing in it.
    pub open spec fn empty() -> ResponseView<M> {
        ResponseView {
            messages: Seq::<M>::empty(),
            attributes: Seq::<AttributeView>::empty(),
            events: Seq::<EventView>::empty(),
        }
    }

    /// This response followed by `extra`: its messages, attributes and events
    /// first, then those of `extra`.
    pub open spec fn merge(self, extra: ResponseView<M>) -> ResponseView<M> {
        ResponseView {
            messages: self.messages + extra.messages,
            attributes: self.attributes + extra.attributes,
            events: self.events + extra.events,
        }
    }
}

/// The audit record of a committed change: the name of the action, then the
/// sender, and nothing else.
pub open spec fn audit_response<M>(action: Seq<char>, sender: Seq<char>) -> ResponseView<M> {
    ResponseView {
        messages: Seq::<M>::empty(),
        attributes: seq![
            AttributeView { key: "action"@, value: action },
            AttributeView { key: "sender"@, value: sender },
        ],
        events: Seq::<EventView>::empty(),
    }
}

/// Builds the attribute with the key `key` and the value `value`.
pub fn attr(key: &str, value: String) -> (attribute: Attribute)
    ensures
        attribute@ == (AttributeView { key: key@, value: value@ }),
{
    Attribute { key: key.to_owned(), value }
}

impl<M> Response<M> {
    /// A response with nothing in it.
    pub fn new() -> (response: Self)
        ensures
            response@ == ResponseView::<M>::empty(),
    {
        let response =
            Response { messages: Vec::new(), attributes: Vec::new(), events: Vec::new() };
        assert(response@.attributes =~= Seq::<AttributeView>::empty());
        assert(response@.events =~= Seq::<EventView>::empty());
        response
    }

    /// Puts `messages` behind the messages of this response.
    pub fn add_submessages(self, messages: Vec<M>) -> (response: Self)
        ensures
            response@ == (ResponseView { messages: self@.messages + messages@, ..self@ }),
    {
        let Response { messages: mut held, attributes, events } = self;
        let mut extra = messages;
        held.append(&mut extra);
        Response { messages: held, attributes, events }
    }

    /// Puts `attributes` behind the attributes of this response.
    pub fn add_attributes(self, attributes: Vec<Attribute>) -> (response: Self)
        ensures
            response@ == (ResponseView {
                attributes: self@.attributes + attributes_view(attributes@),
                ..self@
            }),
    {
        let Response { messages, attributes: mut held, events } = self;
        let mut extra = attributes;
        held.append(&mut extra);
        let response = Response { messages, attributes: held, events };
        assert(response@.attributes =~= self@.attributes + attributes_view(attributes@));
        response
    }

    /// Puts `events` behind the events of this response.
    pub fn add_events(self, events: Vec<Event>) -> (response: Self)
        ensures
            response@ == (ResponseView { events: self@.events + events_view(events@), ..self@ }),
    {
        let Response { messages, attributes, events: mut held } = self;
        let mut extra = events;
        held.append(&mut extra);
        let response = Response { messages, attributes, events: held };
        assert(response@.events =~= self@.events + events_view(events@));
        response
    }

    /// The acknowledgment of the change `action` that `sender` has made.
    pub fn audit(action: String, sender: String) -> (response: Self)
        ensures
            response@ == audit_response::<M>(action@, sender@),
    {
        let mut attributes: Vec<Attribute> = Vec::new();
        attributes.push(attr("action", action));
        attributes.push(attr("sender", sender));
        let response = Response::new().add_attributes(attributes);
        assert(response@.attributes =~= audit_response::<M>(action@, sender@).attributes);
        response
    }

    /// This response followed by `extra`.
    pub fn merge(self, extra: Response<M>) -> (response: Self)
        ensures
            response@ == self@.merge(extra@),
    {
        let Response { messages, attributes, events } = extra;
        self.add_submessages(messages).add_attributes(attributes).add_events(events)
    }
}

impl ExecuteMsg {
    /// The name under which the change is recorded: the name of its variant.
    pub open spec fn spec_action(&self) -> Seq<char> {
        match self {
            ExecuteMsg::UpdateCycleStartTime { .. } => "UpdateCycleStartTime"@,
            ExecuteMsg::UpdateGateAddresses { .. } => "UpdateGateAddresses"@,
            ExecuteMsg::UpdateTimeInterval { .. } => "UpdateTimeInterval"@,
        }
    }

    /// The name under which the change is recorded.
    pub fn action(&self) -> (name: String)
        ensures
            name@ == self.spec_action(),
    {
        match self {
            ExecuteMsg::UpdateCycleStartTime { .. } => "UpdateCycleStartTime".to_owned(),
            ExecuteMsg::UpdateGateAddresses { .. } => "UpdateGateAddresses".to_owned(),
            ExecuteMsg::UpdateTimeInterval { .. } => "UpdateTimeInterval".to_owned(),
        }
    }
}

} // verus!
