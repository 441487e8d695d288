use pk::comm::{
    apply_event, attached, init_comm, registry_change, InitOutcome, RegistryChange,
    COMPONENT_NAME, DEFAULT_PORT, DEFAULT_RUNTIME_URL,
};
use pk::json::{Json, Number};
use pk::manager::Audience;
use pk::models::{
    Double, HealthUpdate, NodeConfig, NodeTask, PkConfig, ServiceAgentInfo, ServiceChangedEvent,
    Single, SpdeDefaults, Task, TaskItem, TaskOverrides,
};
use pk::notify::{
    notify_config_changed, notify_new_task, notify_service_changed, OutgoingEvent, Payload,
    ServiceChangedPayload,
};
use pk::task_config::build_node_task_config;

fn config(listen: &str, token: &str) -> PkConfig {
    PkConfig {
        listen: listen.to_string(),
        token: token.to_string(),
        runtime_url: None,
        register_timeout_secs: 0,
        region: None,
        spde_defaults: SpdeDefaults {
            save_path: "/data".to_string(),
            max_concurrent: 1,
            connections_per_file: 2,
            retry_times: 3,
            timeout: 4,
            dry_run: false,
            skip_tls_verify: true,
            resume: true,
            http_proxy: Some("http://p".to_string()),
            https_proxy: None,
        },
    }
}

fn node_task(overrides: TaskOverrides) -> NodeTask {
    NodeTask {
        dispatch_id: 9,
        task: Task {
            url: "http://x/y".to_string(),
            filename: "y".to_string(),
            overrides,
        },
    }
}

fn no_overrides() -> TaskOverrides {
    TaskOverrides {
        max_concurrent: None,
        connections_per_file: None,
        retry_times: None,
        timeout: None,
        skip_tls_verify: None,
        dry_run: None,
        save_path: None,
    }
}

fn text(s: &str) -> Json {
    Json::Text(s.to_string())
}

fn number(n: u64) -> Json {
    Json::Number(Number::Unsigned(n))
}

fn object(entries: Vec<(&str, Json)>) -> Json {
    Json::Object(
        entries
            .into_iter()
            .map(|(k, v)| (k.to_string(), v))
            .collect(),
    )
}

fn registered(payload: &Json) -> ServiceAgentInfo {
    match registry_change("component.registered", "c", 7, payload, "now".to_string()) {
        RegistryChange::Register(info) => info,
        other => panic!("{:?}", other),
    }
}

#[test]
fn defaults_hold_where_a_task_says_nothing() {
    assert_eq!(
        build_node_task_config(&config("0.0.0.0:5566", ""), &node_task(no_overrides())),
        NodeConfig {
            dispatch_id: 9,
            master: "http://127.0.0.1:5566".to_string(),
            token: None,
            tasks: vec![TaskItem {
                url: "http://x/y".to_string(),
                filename: "y".to_string(),
                save_path: "/data".to_string(),
                max_concurrent: 1,
                connections_per_file: 2,
                retry_times: 3,
                timeout: 4,
                dry_run: false,
                skip_tls_verify: true,
                resume: true,
                http_proxy: Some("http://p".to_string()),
                https_proxy: None,
            }],
        }
    );
}

#[test]
fn overrides_win() {
    let overrides = TaskOverrides {
        max_concurrent: Some(11),
        connections_per_file: Some(12),
        retry_times: Some(13),
        timeout: Some(14),
        skip_tls_verify: Some(false),
        dry_run: Some(true),
        save_path: Some("/else".to_string()),
    };
    let r = build_node_task_config(&config("[::]:80", "secret"), &node_task(overrides));
    assert_eq!(r.master, "http://127.0.0.1:80");
    assert_eq!(r.token, Some("secret".to_string()));
    assert_eq!(
        r.tasks,
        vec![TaskItem {
            url: "http://x/y".to_string(),
            filename: "y".to_string(),
            save_path: "/else".to_string(),
            max_concurrent: 11,
            connections_per_file: 12,
            retry_times: 13,
            timeout: 14,
            dry_run: true,
            skip_tls_verify: false,
            resume: true,
            http_proxy: Some("http://p".to_string()),
            https_proxy: None,
        }]
    );
}

#[test]
fn the_node_configuration_takes_address_and_token_as_they_are() {
    let r = build_node_task_config(&config("localhost", "  "), &node_task(no_overrides()));
    assert_eq!(r.master, "http://127.0.0.1:localhost");
    assert_eq!(r.token, Some("  ".to_string()));
    let r = build_node_task_config(&config("", ""), &node_task(no_overrides()));
    assert_eq!(r.master, "http://127.0.0.1:");
}

#[test]
fn settings_fall_back_to_defaults() {
    let r = init_comm(&config("localhost", ""));
    assert_eq!(r.name, COMPONENT_NAME);
    assert_eq!(r.name, "pk");
    assert_eq!(r.port, DEFAULT_PORT);
    assert_eq!(r.port, 5566);
    assert_eq!(r.runtime_url, DEFAULT_RUNTIME_URL);
    assert_eq!(r.runtime_url, "http://127.0.0.1:8080");
    assert_eq!(r.timeout_secs, 1);
    assert_eq!(r.region, None);
    assert_eq!(
        r.events,
        vec![
            "component.registered",
            "component.status_changed",
            "app.status_changed",
            "component.unregistered",
            "component.offline",
        ]
    );
}

#[test]
fn settings_follow_the_configuration() {
    let mut cfg = config("0.0.0.0:81", "");
    cfg.runtime_url = Some("http://r".to_string());
    cfg.register_timeout_secs = 5;
    cfg.region = Some("eu".to_string());
    let r = init_comm(&cfg);
    assert_eq!(r.port, 81);
    assert_eq!(r.runtime_url, "http://r");
    assert_eq!(r.timeout_secs, 5);
    assert_eq!(r.region, Some("eu".to_string()));
    for (listen, port) in [("80", 80), ("a:b:1", 1), ("a:65536", 5566), ("a:", 5566), ("a:-1", 5566)] {
        assert_eq!(init_comm(&config(listen, "")).port, port, "{}", listen);
    }
}

#[test]
fn nodes_are_sent_to_the_announced_port() {
    for (listen, port) in [("0.0.0.0:5566", 5566), ("[::]:80", 80), ("a:+81", 81), ("a:0082", 82)] {
        let cfg = config(listen, "");
        let master = build_node_task_config(&cfg, &node_task(no_overrides())).master;
        let segment = master.strip_prefix("http://127.0.0.1:").unwrap();
        assert_eq!(segment.parse::<u16>().unwrap(), port);
        assert_eq!(init_comm(&cfg).port, port);
    }
}

#[test]
fn pk_runs_on_its_own_where_the_runtime_is_out_of_reach() {
    assert_eq!(attached(InitOutcome::Attached(3)), Some(3));
    assert_eq!(attached::<u8>(InitOutcome::Failed), None);
    assert_eq!(attached::<u8>(InitOutcome::TimedOut), None);
}

#[test]
fn events_without_component_are_ignored() {
    let payloads = vec![
        Json::Null,
        Json::Array(vec![]),
        object(vec![]),
        object(vec![("id", text(""))]),
        object(vec![("id", number(1))]),
        // A member that is there but is no text is not made up for by the other one.
        object(vec![("id", Json::Null), ("component_id", text("c"))]),
    ];
    for payload in payloads {
        assert_eq!(apply_event("component.unregistered", &payload), None);
    }
}

#[test]
fn the_component_is_named_by_either_member() {
    let first = apply_event("component.unregistered", &object(vec![("id", text("c"))]));
    let second = apply_event(
        "component.unregistered",
        &object(vec![("component_id", text("c"))]),
    );
    let both = apply_event(
        "component.unregistered",
        &object(vec![("component_id", text("d")), ("id", text("c"))]),
    );
    assert!(matches!(first, Some(RegistryChange::Unregister(_))));
    assert_eq!(first, second);
    assert_eq!(first, both);
}

#[test]
fn components_that_go_down() {
    let payload = object(vec![("id", text("c"))]);
    let now = || "now".to_string();
    assert_eq!(
        registry_change("component.unregistered", "c", 7, &payload, now()),
        RegistryChange::Unregister(7)
    );
    assert_eq!(
        registry_change("component.offline", "c", 7, &payload, now()),
        RegistryChange::UpdateHealth(HealthUpdate {
            agent_id: 7,
            health: "unhealthy".to_string(),
            load_quarters: 0,
        })
    );
}

#[test]
fn components_that_come_up() {
    let payload = object(vec![
        ("name", text("Component")),
        ("component_type", text("pdc")),
        ("serve_host", text("h1")),
        ("host", text("h2")),
        ("serve_port", number(81)),
        ("port", number(82)),
        ("capabilities", Json::Array(vec![text("a"), text("b")])),
        ("region", text("eu")),
        ("version", text("3")),
    ]);
    let info = ServiceAgentInfo {
        agent_id: 7,
        name: "Component".to_string(),
        agent_type: "pdc".to_string(),
        host: "h1".to_string(),
        port: 81,
        capabilities: vec!["a".to_string(), "b".to_string()],
        health: "healthy".to_string(),
        load_quarters: 0,
        region: Some("eu".to_string()),
        version: "3".to_string(),
        last_heartbeat: Some("now".to_string()),
    };
    for event in ["component.registered", "component.status_changed", "app.status_changed", "x"] {
        assert_eq!(
            registry_change(event, "c", 7, &payload, "now".to_string()),
            RegistryChange::Register(registered(&payload))
        );
    }
    assert_eq!(registered(&payload), info);
}

#[test]
fn what_an_event_leaves_out_is_filled_in() {
    assert_eq!(
        registered(&object(vec![])),
        ServiceAgentInfo {
            agent_id: 7,
            name: "c".to_string(),
            agent_type: "unknown".to_string(),
            host: String::new(),
            port: 0,
            capabilities: vec![],
            health: "healthy".to_string(),
            load_quarters: 0,
            region: None,
            version: String::new(),
            last_heartbeat: Some("now".to_string()),
        }
    );
    let info = registered(&object(vec![("host", text("h")), ("port", number(82))]));
    assert_eq!((info.host.as_str(), info.port), ("h", 82));
}

#[test]
fn odd_members_are_read_as_defaults() {
    let info = registered(&object(vec![
        ("name", number(1)),
        ("serve_host", Json::Null),
        ("host", text("h")),
        ("port", Json::Number(Number::Negative(-1))),
        ("capabilities", Json::Array(vec![text("a"), number(1)])),
        ("region", Json::Bool(true)),
    ]));
    assert_eq!(info.name, "c");
    assert_eq!(info.host, "");
    assert_eq!(info.port, 0);
    assert!(info.capabilities.is_empty());
    assert_eq!(info.region, None);
    let float = Json::Number(Number::Float(Double { bits: 80.0f64.to_bits() }));
    assert_eq!(registered(&object(vec![("port", float)])).port, 0);
}

#[test]
fn ports_wrap_as_a_cast_does() {
    for n in [0, 65535, 65536, 65537, u64::MAX] {
        assert_eq!(registered(&object(vec![("port", number(n))])).port, n as u16);
    }
}

#[test]
fn agents_come_up_now() {
    match apply_event("component.registered", &object(vec![("id", text("pdc"))])) {
        Some(RegistryChange::Register(info)) => {
            assert_eq!(info.name, "pdc");
            let at = info.last_heartbeat.unwrap();
            assert!(chrono::DateTime::parse_from_rfc3339(&at).is_ok());
        }
        other => panic!("{:?}", other),
    }
}

#[test]
fn json_members_are_looked_up() {
    let v = object(vec![("a", number(1)), ("b", Json::Null)]);
    assert_eq!(v.get("a"), Some(&number(1)));
    assert_eq!(v.get("c"), None);
    assert_eq!(v.get_or("c", "a"), Some(&number(1)));
    assert_eq!(v.get_or("b", "a"), Some(&Json::Null));
    assert_eq!(Json::Array(vec![text("a")]).get("a"), None);
}

#[test]
fn plain_notices_go_to_all_nodes() {
    let cases = [
        (notify_config_changed(), OutgoingEvent::ConfigChanged),
        (notify_new_task(), OutgoingEvent::TaskNew),
    ];
    for (notice, event) in cases {
        assert_eq!(notice.audience, Audience::All);
        assert_eq!(notice.message.event, event);
        assert_eq!(notice.message.source, "pk");
        assert_eq!(notice.message.payload, Payload::Empty);
    }
}

#[test]
fn service_changes_go_to_all_nodes() {
    let event = |health: &str| ServiceChangedEvent {
        agent_id: "agent".to_string(),
        change_type: "up".to_string(),
        host: "h".to_string(),
        port: 80,
        health: health.to_string(),
        agent_type: "pdc".to_string(),
        capabilities: vec!["a".to_string(), "b".to_string()],
        region: Some("eu".to_string()),
        load: Single { bits: 0.25f32.to_bits() },
    };
    for (health, healthy) in [("healthy", true), ("unhealthy", false), ("Healthy", false)] {
        let notice = notify_service_changed(&event(health));
        assert_eq!(notice.audience, Audience::All);
        assert_eq!(notice.message.event, OutgoingEvent::ServiceChanged);
        assert_eq!(notice.message.source, "pk");
        assert_eq!(
            notice.message.payload,
            Payload::ServiceChanged(ServiceChangedPayload {
                service_name: "agent".to_string(),
                action: "up".to_string(),
                address: "h".to_string(),
                port: 80,
                healthy,
                agent_type: "pdc".to_string(),
                capabilities: vec!["a".to_string(), "b".to_string()],
                region: Some("eu".to_string()),
                health: health.to_string(),
                load: Single { bits: 0.25f32.to_bits() },
            })
        );
    }
}
