use chrono::DateTime;
use pk::comm::{apply_event, RegistryChange};
use pk::ids::{NAMESPACE_DNS, NIL};
use pk::json::Json;
use pk::manager::{Audience, WsManager};
use pk::notify::{notify_node_deleted, OutgoingEvent, Payload};
use pk::session::{open_frontend_session, open_session, ws_handler};
use pk::frontend::FrontendWsManager;
use uuid::Uuid;

const ID: u128 = 0x67e55044_10b1_426f_9247_bb680e5fe0c8;

fn named(id: &str) -> Json {
    Json::Object(vec![("id".to_string(), Json::Text(id.to_string()))])
}

fn unregistered(id: &str) -> u128 {
    match apply_event("component.unregistered", &named(id)) {
        Some(RegistryChange::Unregister(agent)) => agent,
        other => panic!("{:?}", other),
    }
}

#[test]
fn constants_are_those_of_the_uuid_crate() {
    assert_eq!(NIL, Uuid::nil().as_u128());
    assert_eq!(NAMESPACE_DNS, Uuid::NAMESPACE_DNS.as_u128());
}

#[test]
fn node_parameter_is_read_in_every_form() {
    let forms = [
        "67e5504410b1426f9247bb680e5fe0c8",
        "67e55044-10b1-426f-9247-bb680e5fe0c8",
        "67E55044-10B1-426F-9247-BB680E5FE0C8",
        "{67e55044-10b1-426f-9247-bb680e5fe0c8}",
        "urn:uuid:67e55044-10b1-426f-9247-bb680e5fe0c8",
        "URN:Uuid:67e55044-10b1-426f-9247-BB680e5fe0c8",
    ];
    for form in forms {
        assert_eq!(ws_handler(Some(form)), Some(ID), "{}", form);
    }
}

#[test]
fn node_parameter_may_be_missing_or_wrong() {
    assert_eq!(ws_handler(None), None);
    assert_eq!(ws_handler(Some("")), None);
    assert_eq!(ws_handler(Some("node-1")), None);
    assert_eq!(ws_handler(Some("67e55044-10b1-426f-9247-bb680e5fe0cg")), None);
    let wrong = [
        " 67e55044-10b1-426f-9247-bb680e5fe0c8",
        "67e5504-410b1-426f-9247-bb680e5fe0c8",
        "67e55044-10b1-426f-9247-bb680e5fe0c-",
        "(67e55044-10b1-426f-9247-bb680e5fe0c8)",
        "{67e5504410b1426f9247bb680e5fe0c8}",
        "{67e55044-10b1-426f-9247-bb680e5fe0c8 ",
        "urn-uuid:67e55044-10b1-426f-9247-bb680e5fe0c8",
        "67e5504410b1426f9247bb680e5fe0c",
        "+7e5504410b1426f9247bb680e5fe0c8",
        "é7e5504410b1426f9247bb680e5fe0c",
        "é7e5504410b1426f9247bb680e5fe0c8",
    ];
    for text in wrong {
        assert_eq!(ws_handler(Some(text)), None, "{}", text);
    }
}

#[test]
fn a_deleted_node_is_named_in_hyphenated_form() {
    let notice = notify_node_deleted(ID);
    assert_eq!(notice.audience, Audience::Node(ID));
    assert_eq!(notice.message.event, OutgoingEvent::NodeDeleted);
    assert_eq!(notice.message.source, "pk");
    assert_eq!(
        notice.message.payload,
        Payload::NodeDeleted {
            node_id: "67e55044-10b1-426f-9247-bb680e5fe0c8".to_string()
        }
    );
    assert_eq!(
        notify_node_deleted(0x1f).message.payload,
        Payload::NodeDeleted {
            node_id: "00000000-0000-0000-0000-00000000001f".to_string()
        }
    );
}

#[test]
fn written_identifiers_read_back_and_differ() {
    let ids = [0, 1, ID, u128::MAX, 1 << 127, 0x1_0000_0000];
    let texts: Vec<String> = ids
        .iter()
        .map(|id| match notify_node_deleted(*id).message.payload {
            Payload::NodeDeleted { node_id } => node_id,
            other => panic!("{:?}", other),
        })
        .collect();
    for i in 0..ids.len() {
        assert_eq!(ws_handler(Some(&texts[i])), Some(ids[i]));
        for j in 0..i {
            assert_ne!(texts[i], texts[j]);
        }
    }
}

#[test]
fn agents_are_derived_from_component_names() {
    // The version 5 identifier of the domain name `example.org`.
    assert_eq!(
        unregistered("example.org"),
        0xaad03681_8b63_5304_89e0_8ca8f49461b5
    );
    assert_eq!(
        unregistered("组件"),
        Uuid::new_v5(&Uuid::NAMESPACE_DNS, "组件".as_bytes()).as_u128()
    );
    assert_eq!(unregistered("pdc"), unregistered("pdc"));
    assert_ne!(unregistered("pdc"), unregistered("pdd"));
    assert_eq!(Uuid::from_u128(unregistered("pdc")).get_version_num(), 5);
}

#[test]
fn connections_get_random_identifiers() {
    let mut ws: WsManager<u8> = WsManager::new();
    let (a, greeting) = open_session(&mut ws, 1, None);
    assert!(greeting.is_none());
    let (b, _) = open_session(&mut ws, 2, Some(ID));
    assert_ne!(a.conn_id, b.conn_id);
    assert_eq!((a.node_id, b.node_id), (None, Some(ID)));
    let mut frontend: FrontendWsManager<u8> = FrontendWsManager::new();
    let c = open_frontend_session(&mut frontend, 3);
    for id in [a.conn_id, b.conn_id, c] {
        assert_ne!(id, NIL);
        assert_eq!(Uuid::from_u128(id).get_version_num(), 4);
        assert_eq!(Uuid::from_u128(id).get_variant(), uuid::Variant::RFC4122);
    }
}

#[test]
fn time_stamps_are_rfc3339_in_utc() {
    let before = chrono::Utc::now();
    let mut ws: WsManager<u8> = WsManager::new();
    ws.update_node_speed(ID, 5);
    let at = ws.get_node_realtime(ID).unwrap().updated_at;
    assert!(at.ends_with("+00:00"));
    let at = DateTime::parse_from_rfc3339(&at).unwrap();
    assert!(before <= at && at <= chrono::Utc::now());
}

#[test]
fn time_stamps_have_their_parts_in_place() {
    let mut ws: WsManager<u8> = WsManager::new();
    ws.update_node_speed(ID, 5);
    let at = ws.get_node_realtime(ID).unwrap().updated_at;
    let body = at.strip_suffix("+00:00").unwrap();
    let (seconds, fraction) = body.split_at(19);
    for (i, c) in seconds.chars().enumerate() {
        match i {
            4 | 7 => assert_eq!(c, '-'),
            10 => assert_eq!(c, 'T'),
            13 | 16 => assert_eq!(c, ':'),
            _ => assert!(c.is_ascii_digit()),
        }
    }
    assert!([0, 4, 7, 10].contains(&fraction.len()));
    if let Some(digits) = fraction.strip_prefix('.') {
        assert!(digits.bytes().all(|b| b.is_ascii_digit()));
    }
}
