//! Joining the runtime: how `pk` registers itself, and what the runtime's component events change
//! in the service registry.

use vstd::prelude::*;

use crate::clock::now_rfc3339;
use crate::ids::{uuid_from_name, NAMESPACE_DNS};
use crate::json::{read_text, read_text_or, read_texts, read_unsigned_or_zero, Json};
use crate::models::{HealthUpdate, PkConfig, ServiceAgentInfo};
use crate::text::{last_segment, parse_u16, same_text};

verus! {

/// The name under which `pk` registers.
pub const COMPONENT_NAME: &'static str = "pk";

/// The port that is announced where the listen address names none.
pub const DEFAULT_PORT: u16 = 5566;

/// The runtime's address where none is configured.
pub const DEFAULT_RUNTIME_URL: &'static str = "http://127.0.0.1:8080";

/// How `pk` registers with the runtime.
#[derive(Debug, PartialEq)]
pub struct CommSettings {
    pub name: String,
    pub port: u16,
    pub runtime_url: String,
    pub timeout_secs: u64,
    pub region: Option<String>,
    /// The events that are passed to [`apply_event`].
    pub events: Vec<String>,
}

/// How the attempt to register with the runtime ended.
#[derive(Debug, PartialEq)]
pub enum InitOutcome<A> {
    Attached(A),
    Failed,
    TimedOut,
}

/// A change of the service registry.
#[derive(Debug, PartialEq)]
pub enum RegistryChange {
    Unregister(u128),
    UpdateHealth(HealthUpdate),
    Register(ServiceAgentInfo),
}

/// The port that a listen address names, or else the default one.
pub open spec fn announced_port(listen: Seq<char>) -> u16 {
    match crate::text::u16_of(crate::text::last_segment_of(listen)) {
        Some(port) => port,
        None => DEFAULT_PORT,
    }
}

/// The events that change the service registry.
pub open spec fn subscribed_events() -> Seq<Seq<char>> {
    seq![
        "component.registered"@,
        "component.status_changed"@,
        "app.status_changed"@,
        "component.unregistered"@,
        "component.offline"@,
    ]
}

/// The component that an event is about: its `id`, or else its `component_id`. It is empty where
/// the payload names none.
pub open spec fn component_of(payload: Json) -> Seq<char> {
    crate::json::text_or(crate::json::member_or(payload, "id"@, "component_id"@), ""@)
}

/// Whether `info` is what an event says of a component that is up.
pub open spec fn describes(
    info: ServiceAgentInfo,
    component: Seq<char>,
    agent_id: u128,
    payload: Json,
    now: Seq<char>,
) -> bool {
    &&& info.agent_id == agent_id
    &&& info.name@ == crate::json::text_or(crate::json::member(payload, "name"@), component)
    &&& info.agent_type@ == crate::json::text_or(
        crate::json::member(payload, "component_type"@),
        "unknown"@,
    )
    &&& info.host@ == crate::json::text_or(
        crate::json::member_or(payload, "serve_host"@, "host"@),
        ""@,
    )
    &&& info.port == crate::json::unsigned_or_zero(
        crate::json::member_or(payload, "serve_port"@, "port"@),
    ) % 65536
    &&& info.capabilities@.map_values(|s: String| s@) == crate::json::texts_of(
        crate::json::member(payload, "capabilities"@),
    )
    &&& info.health@ == "healthy"@
    &&& info.load_quarters == 0
    &&& match info.region {
        Some(s) => crate::json::text_of(crate::json::member(payload, "region"@)) == Some(s@),
        None => crate::json::text_of(crate::json::member(payload, "region"@)) is None,
    }
    &&& info.version@ == crate::json::text_or(crate::json::member(payload, "version"@), ""@)
    &&& info.last_heartbeat matches Some(s) && s@ == now
}

/// Whether an event puts a component up: all do but the two that take it down.
pub open spec fn puts_up(event_type: Seq<char>) -> bool {
    event_type != "component.unregistered"@ && event_type != "component.offline"@
}

/// Whether `change` is what an event about a component asks for.
pub open spec fn follows_event(
    change: RegistryChange,
    event_type: Seq<char>,
    component: Seq<char>,
    agent_id: u128,
    payload: Json,
    now: Seq<char>,
) -> bool {
    if event_type == "component.unregistered"@ {
        change == RegistryChange::Unregister(agent_id)
    } else if event_type == "component.offline"@ {
        change matches RegistryChange::UpdateHealth(h) && h.agent_id == agent_id && h.health@
            == "unhealthy"@ && h.load_quarters == 0
    } else {
        change matches RegistryChange::Register(info) && describes(
            info,
            component,
            agent_id,
            payload,
            now,
        )
    }
}

/// The settings with which `pk` registers.
pub fn init_comm(cfg: &PkConfig) -> (r: CommSettings)
    ensures
        r.name@ == "pk"@,
        r.port == announced_port(cfg.listen@),
        r.runtime_url@ == (match cfg.runtime_url {
            Some(url) => url@,
            None => "http://127.0.0.1:8080"@,
        }),
        r.timeout_secs == (if cfg.register_timeout_secs >= 1 {
            cfg.register_timeout_secs
        } else {
            1
        }),
        r.region == cfg.region,
        r.events@.map_values(|s: String| s@) == subscribed_events(),
{
    let port: u16 = match parse_u16(last_segment(cfg.listen.as_str())) {
        Some(port) => port,
        None => DEFAULT_PORT,
    };
    let runtime_url = match &cfg.runtime_url {
        Some(url) => url.clone(),
        None => DEFAULT_RUNTIME_URL.to_string(),
    };
    let timeout_secs: u64 = if cfg.register_timeout_secs >= 1 {
        cfg.register_timeout_secs
    } else {
        1
    };
    let region = match &cfg.region {
        Some(region) => Some(region.clone()),
        None => None,
    };
    let mut events: Vec<String> = Vec::new();
    events.push("component.registered".to_string());
    events.push("component.status_changed".to_string());
    events.push("app.status_changed".to_string());
    events.push("component.unregistered".to_string());
    events.push("component.offline".to_string());
    assert(events@.map_values(|s: String| s@) =~= subscribed_events());
    CommSettings {
        name: COMPONENT_NAME.to_string(),
        port,
        runtime_url,
        timeout_secs,
        region,
        events,
    }
}

/// The runtime's handle, if the attempt to register succeeded; otherwise `pk` runs on its own.
pub fn attached<A>(outcome: InitOutcome<A>) -> (r: Option<A>)
    ensures
        r == (match outcome {
            InitOutcome::Attached(handle) => Some(handle),
            _ => None,
        }),
{
    match outcome {
        InitOutcome::Attached(handle) => Some(handle),
        InitOutcome::Failed => None,
        InitOutcome::TimedOut => None,
    }
}

/// The change that an event at `now` about a component asks for, where the component is the agent
/// `agent_id` of the registry.
pub fn registry_change(
    event_type: &str,
    component: &str,
    agent_id: u128,
    payload: &Json,
    now: String,
) -> (r: RegistryChange)
    ensures
        follows_event(r, event_type@, component@, agent_id, *payload, now@),
{
    if same_text(event_type, "component.unregistered") {
        return RegistryChange::Unregister(agent_id);
    }
    if same_text(event_type, "component.offline") {
        return RegistryChange::UpdateHealth(
            HealthUpdate { agent_id, health: "unhealthy".to_string(), load_quarters: 0 },
        );
    }
    let port: u64 = read_unsigned_or_zero(payload.get_or("serve_port", "port"));
    RegistryChange::Register(
        ServiceAgentInfo {
            agent_id,
            name: read_text_or(payload.get("name"), component),
            agent_type: read_text_or(payload.get("component_type"), "unknown"),
            host: read_text_or(payload.get_or("serve_host", "host"), ""),
            port: (port % 65536) as u16,
            capabilities: read_texts(payload.get("capabilities")),
            health: "healthy".to_string(),
            load_quarters: 0,
            region: read_text(payload.get("region")),
            version: read_text_or(payload.get("version"), ""),
            last_heartbeat: Some(now),
        },
    )
}

/// What a component event changes in the service registry. An event that names no component
/// changes nothing. The agent's identifier is derived from the component's name, so that all
/// events about a component concern the same agent. The time is asked for only where the component
/// is put up.
pub fn apply_event(event_type: &str, payload: &Json) -> (r: Option<RegistryChange>)
    ensures
        r is None <==> component_of(*payload).len() == 0,
        r is Some ==> crate::ids::has_version(
            crate::ids::name_based_id(NAMESPACE_DNS, component_of(*payload)),
            5,
        ),
        r matches Some(change) ==> exists|now: Seq<char>|
            {
                &&& #[trigger] follows_event(
                    change,
                    event_type@,
                    component_of(*payload),
                    crate::ids::name_based_id(NAMESPACE_DNS, component_of(*payload)),
                    *payload,
                    now,
                )
                &&& puts_up(event_type@) ==> crate::clock::is_utc_stamp(now)
            },
{
    let component = read_text_or(payload.get_or("id", "component_id"), "");
    if component.as_str().is_empty() {
        return None;
    }
    let agent_id = uuid_from_name(NAMESPACE_DNS, component.as_str());
    let takes_down = same_text(event_type, "component.unregistered") || same_text(
        event_type,
        "component.offline",
    );
    let now = if takes_down {
        String::new()
    } else {
        now_rfc3339()
    };
    Some(registry_change(event_type, component.as_str(), agent_id, payload, now))
}

} // verus!
