//! Messages that `pk` sends to the nodes.

use vstd::prelude::*;

use crate::ids::uuid_text;
use crate::manager::Audience;
use crate::models::{ServiceChangedEvent, Single};
use crate::text::same_text;

verus! {

/// The event types of messages to the nodes.
#[derive(Debug, Clone, Copy, PartialEq, Eq, Structural)]
pub enum OutgoingEvent {
    ConfigChanged,
    TaskNew,
    NodeDeleted,
    ServiceChanged,
    /// Keeps a connection alive.
    Ping,
}

/// The payload of a change in the service registry.
#[derive(Debug, PartialEq)]
pub struct ServiceChangedPayload {
    pub service_name: String,
    pub action: String,
    pub address: String,
    pub port: u16,
    pub healthy: bool,
    pub agent_type: String,
    pub capabilities: Vec<String>,
    pub region: Option<String>,
    pub health: String,
    pub load: Single,
}

/// The payload of a message to the nodes.
#[derive(Debug, PartialEq)]
pub enum Payload {
    /// An object without members.
    Empty,
    /// The node that was deleted.
    NodeDeleted { node_id: String },
    ServiceChanged(ServiceChangedPayload),
}

/// A message to the nodes.
#[derive(Debug, PartialEq)]
pub struct WsMessage {
    pub event: OutgoingEvent,
    pub source: String,
    pub payload: Payload,
}

/// A message and whom it is for.
#[derive(Debug, PartialEq)]
pub struct Notice {
    pub message: WsMessage,
    pub audience: Audience,
}

/// Whether `message` comes from `pk` with an empty payload.
pub open spec fn is_bare(message: WsMessage, event: OutgoingEvent) -> bool {
    message.event == event && message.source@ == "pk"@ && message.payload is Empty
}

/// Whether `p` tells of the change `event`.
pub open spec fn announces(p: ServiceChangedPayload, event: ServiceChangedEvent) -> bool {
    &&& p.service_name == event.agent_id
    &&& p.action == event.change_type
    &&& p.address == event.host
    &&& p.port == event.port
    &&& p.healthy == (event.health@ == "healthy"@)
    &&& p.agent_type == event.agent_type
    &&& p.capabilities@ == event.capabilities@
    &&& p.region == event.region
    &&& p.health == event.health
    &&& p.load == event.load
}

fn bare_message(event: OutgoingEvent) -> (r: WsMessage)
    ensures
        is_bare(r, event),
{
    WsMessage { event, source: "pk".to_string(), payload: Payload::Empty }
}

/// The message that keeps a node's connection alive.
pub fn ping_message() -> (r: WsMessage)
    ensures
        is_bare(r, OutgoingEvent::Ping),
{
    bare_message(OutgoingEvent::Ping)
}

/// Tells all nodes that the configuration has changed.
pub fn notify_config_changed() -> (r: Notice)
    ensures
        is_bare(r.message, OutgoingEvent::ConfigChanged),
        r.audience is All,
{
    Notice { message: bare_message(OutgoingEvent::ConfigChanged), audience: Audience::All }
}

/// Tells all nodes that there is a new task.
pub fn notify_new_task() -> (r: Notice)
    ensures
        is_bare(r.message, OutgoingEvent::TaskNew),
        r.audience is All,
{
    Notice { message: bare_message(OutgoingEvent::TaskNew), audience: Audience::All }
}

/// Tells a node that it was deleted, so that it pauses its tasks and registers anew.
pub fn notify_node_deleted(node_id: u128) -> (r: Notice)
    ensures
        r.message.event is NodeDeleted,
        r.message.source@ == "pk"@,
        r.message.payload matches Payload::NodeDeleted { node_id: text } && text@
            == crate::ids::hyphenated(node_id),
        r.audience == Audience::Node(node_id),
{
    Notice {
        message: WsMessage {
            event: OutgoingEvent::NodeDeleted,
            source: "pk".to_string(),
            payload: Payload::NodeDeleted { node_id: uuid_text(node_id) },
        },
        audience: Audience::Node(node_id),
    }
}

fn clone_texts(texts: &Vec<String>) -> (r: Vec<String>)
    ensures
        r@ == texts@,
{
    let r = texts.clone();
    assert forall|i: int| 0 <= i < texts@.len() implies r@[i] == texts@[i] by {
        assert(cloned::<String>(texts@[i], r@[i]));
    }
    assert(r@ =~= texts@);
    r
}

/// Tells all nodes that the service registry has changed.
pub fn notify_service_changed(event: &ServiceChangedEvent) -> (r: Notice)
    ensures
        r.message.event is ServiceChanged,
        r.message.source@ == "pk"@,
        r.message.payload matches Payload::ServiceChanged(p) && announces(p, *event),
        r.audience is All,
{
    let payload = ServiceChangedPayload {
        service_name: event.agent_id.clone(),
        action: event.change_type.clone(),
        address: event.host.clone(),
        port: event.port,
        healthy: same_text(event.health.as_str(), "healthy"),
        agent_type: event.agent_type.clone(),
        capabilities: clone_texts(&event.capabilities),
        region: match &event.region {
            Some(region) => Some(region.clone()),
            None => None,
        },
        health: event.health.clone(),
        load: event.load,
    };
    Notice {
        message: WsMessage {
            event: OutgoingEvent::ServiceChanged,
            source: "pk".to_string(),
            payload: Payload::ServiceChanged(payload),
        },
        audience: Audience::All,
    }
}

} // verus!
