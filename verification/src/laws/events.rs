//! Laws of the runtime's component events and of the JSON values that they carry.

use vstd::prelude::*;

use crate::comm::RegistryChange;
use crate::json::{Json, Number};
use crate::models::ServiceAgentInfo;

verus! {

proof fn lemma_entry(entries: Seq<(String, Json)>, key: Seq<char>)
    ensures
        match crate::json::entry(entries, key) {
            Some(v) => exists|i: int|
                {
                    &&& 0 <= i < entries.len()
                    &&& (#[trigger] entries[i]).0@ == key
                    &&& entries[i].1 == v
                    &&& forall|j: int| 0 <= j < i ==> (#[trigger] entries[j]).0@ != key
                },
            None => forall|i: int| 0 <= i < entries.len() ==> (#[trigger] entries[i]).0@ != key,
        },
    decreases entries.len(),
{
    if entries.len() > 0 && entries[0].0@ != key {
        let rest = entries.skip(1);
        lemma_entry(rest, key);
        assert(forall|j: int| 0 <= j < rest.len() ==> rest[j] == #[trigger] entries[j + 1]);
        match crate::json::entry(rest, key) {
            Some(v) => {
                let i = choose|i: int|
                    {
                        &&& 0 <= i < rest.len()
                        &&& (#[trigger] rest[i]).0@ == key
                        &&& rest[i].1 == v
                        &&& forall|j: int| 0 <= j < i ==> (#[trigger] rest[j]).0@ != key
                    };
                assert(entries[i + 1].0@ == key);
                assert forall|j: int| 0 <= j < i + 1 implies (#[trigger] entries[j]).0@ != key by {
                    if j > 0 {
                        assert(rest[j - 1] == entries[j]);
                    }
                }
            },
            None => {
                assert forall|j: int| 0 <= j < entries.len() implies (
                #[trigger] entries[j]).0@ != key by {
                    if j > 0 {
                        assert(rest[j - 1] == entries[j]);
                    }
                }
            },
        }
    } else if entries.len() > 0 {
        assert(entries[0].0@ == key);
    }
}

/// An object has a member exactly if the key occurs in it, and then the value that stands with the
/// first such key. What is no object has no members.
pub proof fn law_members(value: Json, key: Seq<char>)
    ensures
        match value {
            Json::Object(entries) => match crate::json::member(value, key) {
                Some(v) => exists|i: int|
                    {
                        &&& 0 <= i < entries@.len()
                        &&& (#[trigger] entries@[i]).0@ == key
                        &&& entries@[i].1 == v
                        &&& forall|j: int| 0 <= j < i ==> (#[trigger] entries@[j]).0@ != key
                    },
                None => forall|i: int|
                    0 <= i < entries@.len() ==> (#[trigger] entries@[i]).0@ != key,
            },
            _ => crate::json::member(value, key) is None,
        },
{
    if let Json::Object(entries) = value {
        lemma_entry(entries@, key);
    }
}

/// The first of two members counts where it is there, whatever it holds; the second only where the
/// first is missing.
pub proof fn law_first_member_counts(value: Json, key: Seq<char>, other: Seq<char>)
    ensures
        crate::json::member(value, key) is Some ==> crate::json::member_or(value, key, other)
            == crate::json::member(value, key),
        crate::json::member(value, key) is None ==> crate::json::member_or(value, key, other)
            == crate::json::member(value, other),
{
}

/// A value is read as a text, as a number or as a list of texts exactly if it is one; otherwise the
/// default stands: the given text, zero and the empty list.
pub proof fn law_values_are_read(value: Option<Json>, default: Seq<char>)
    ensures
        match value {
            Some(Json::Text(s)) => {
                &&& crate::json::text_of(value) == Some(s@)
                &&& crate::json::text_or(value, default) == s@
            },
            _ => {
                &&& crate::json::text_of(value) is None
                &&& crate::json::text_or(value, default) == default
            },
        },
        match value {
            Some(Json::Number(Number::Unsigned(n))) => crate::json::unsigned_or_zero(value) == n,
            _ => crate::json::unsigned_or_zero(value) == 0,
        },
        match value {
            Some(Json::Array(items)) => {
                &&& (exists|i: int| 0 <= i < items@.len() && !(#[trigger] items@[i] is Text))
                    ==> crate::json::texts_of(value).len() == 0
                &&& (forall|i: int| 0 <= i < items@.len() ==> #[trigger] items@[i] is Text) ==> {
                    &&& crate::json::texts_of(value).len() == items@.len()
                    &&& forall|i: int|
                        0 <= i < items@.len() ==> (#[trigger] crate::json::texts_of(value)[i])
                            == items@[i]->Text_0@
                }
            },
            _ => crate::json::texts_of(value).len() == 0,
        },
{
    if let Some(Json::Array(items)) = value {
        if exists|i: int| 0 <= i < items@.len() && !(#[trigger] items@[i] is Text) {
            let i = choose|i: int| 0 <= i < items@.len() && !(#[trigger] items@[i] is Text);
            assert(!crate::json::is_text(items@[i]));
        }
        if forall|i: int| 0 <= i < items@.len() ==> #[trigger] items@[i] is Text {
            assert(forall|i: int|
                0 <= i < items@.len() ==> crate::json::is_text(#[trigger] items@[i]));
        }
    }
}

/// The text under `key` of a payload, or else `default`.
pub open spec fn is_text_under(
    text: Seq<char>,
    payload: Json,
    key: Seq<char>,
    default: Seq<char>,
) -> bool {
    match crate::json::member(payload, key) {
        Some(Json::Text(s)) => text == s@,
        _ => text == default,
    }
}

/// An event is about the component under `id` where there is such a member, and else about the one
/// under `component_id`. Where that is no text it is about none.
pub proof fn law_component_of_event(payload: Json)
    ensures
        crate::json::member(payload, "id"@) is Some ==> is_text_under(
            crate::comm::component_of(payload),
            payload,
            "id"@,
            ""@,
        ),
        crate::json::member(payload, "id"@) is None ==> is_text_under(
            crate::comm::component_of(payload),
            payload,
            "component_id"@,
            ""@,
        ),
{
}

/// An agent is registered under its identifier with what the event says of it: its name or else the
/// component, its type or else `unknown`, its host, port, region, version and capabilities. It is
/// healthy, without load, and was last seen now.
pub proof fn law_registered_agents(
    info: ServiceAgentInfo,
    component: Seq<char>,
    agent_id: u128,
    payload: Json,
    now: Seq<char>,
)
    requires
        crate::comm::describes(info, component, agent_id, payload, now),
    ensures
        info.agent_id == agent_id,
        is_text_under(info.name@, payload, "name"@, component),
        is_text_under(info.agent_type@, payload, "component_type"@, "unknown"@),
        crate::json::member(payload, "serve_host"@) is Some ==> is_text_under(
            info.host@,
            payload,
            "serve_host"@,
            ""@,
        ),
        crate::json::member(payload, "serve_host"@) is None ==> is_text_under(
            info.host@,
            payload,
            "host"@,
            ""@,
        ),
        ({
            let port = match crate::json::member(payload, "serve_port"@) {
                Some(v) => Some(v),
                None => crate::json::member(payload, "port"@),
            };
            match port {
                Some(Json::Number(Number::Unsigned(n))) => {
                    &&& n < 65536 ==> info.port == n
                    &&& (n - info.port) % 65536 == 0
                },
                _ => info.port == 0,
            }
        }),
        info.capabilities@.map_values(|s: String| s@) == crate::json::texts_of(
            crate::json::member(payload, "capabilities"@),
        ),
        info.health@ == "healthy"@,
        info.load_quarters == 0,
        match crate::json::member(payload, "region"@) {
            Some(Json::Text(s)) => info.region matches Some(r) && r@ == s@,
            _ => info.region is None,
        },
        is_text_under(info.version@, payload, "version"@, ""@),
        info.last_heartbeat matches Some(s) && s@ == now,
{
}

/// An event that unregisters a component removes its agent, one that reports it offline marks the
/// agent as unhealthy and without load, and any other registers it.
pub proof fn law_changes_follow_events(
    change: RegistryChange,
    event_type: Seq<char>,
    component: Seq<char>,
    agent_id: u128,
    payload: Json,
    now: Seq<char>,
)
    requires
        crate::comm::follows_event(change, event_type, component, agent_id, payload, now),
    ensures
        change is Unregister <==> event_type == "component.unregistered"@,
        change is UpdateHealth <==> event_type == "component.offline"@,
        change matches RegistryChange::Unregister(id) ==> id == agent_id,
        change matches RegistryChange::UpdateHealth(h) ==> {
            &&& h.agent_id == agent_id
            &&& h.health@ == "unhealthy"@
            &&& h.load_quarters == 0
        },
        change matches RegistryChange::Register(info) ==> crate::comm::describes(
            info,
            component,
            agent_id,
            payload,
            now,
        ),
        crate::comm::puts_up(event_type) <==> change is Register,
{
    reveal_strlit("component.unregistered");
    reveal_strlit("component.offline");
    assert("component.unregistered"@.len() != "component.offline"@.len());
}

/// The events that `pk` subscribes to are those of components that come, change, go and fall
/// silent.
pub proof fn law_subscribed_events()
    ensures
        crate::comm::subscribed_events() == seq![
            "component.registered"@,
            "component.status_changed"@,
            "app.status_changed"@,
            "component.unregistered"@,
            "component.offline"@,
        ],
{
}

} // verus!
