use pk::frontend::FrontendWsManager;
use pk::manager::WsManager;
use pk::notify::{ping_message, OutgoingEvent, Payload};
use pk::session::{
    close_session, on_frame, on_frontend_frame, open_frontend_session, open_session,
    open_session_at, send_step, Frame, Received, SendEvent, SendStep, Session, PING_SECS,
};
use pk::statement::touch_statement;

const NODE: u128 = 10;

fn frames() -> Vec<Frame> {
    vec![
        Frame::Text("t".to_string()),
        Frame::Binary,
        Frame::Ping,
        Frame::Pong,
        Frame::Close,
        Frame::Lost,
    ]
}

#[test]
fn a_node_is_greeted() {
    let mut ws: WsManager<u8> = WsManager::new();
    let (session, greeting) = open_session_at(&mut ws, 1, 7, Some(NODE), "now".to_string());
    assert_eq!(
        session,
        Session {
            conn_id: 1,
            node_id: Some(NODE)
        }
    );
    assert_eq!(greeting, Some(touch_statement(NODE, "now".to_string())));
    assert_eq!(ws.broadcast(None).to, vec![(1, &7)]);
}

#[test]
fn a_connection_without_node_waits_for_its_registration() {
    let mut ws: WsManager<u8> = WsManager::new();
    let (session, greeting) = open_session_at(&mut ws, 1, 7, None, "now".to_string());
    assert_eq!(session.node_id, None);
    assert_eq!(greeting, None);
    assert!(ws.broadcast(None).to.is_empty());
}

#[test]
fn closing_undoes_opening() {
    let mut ws: WsManager<u8> = WsManager::new();
    ws.register(1, 6, Some(NODE));
    let (session, greeting) = open_session(&mut ws, 7, Some(NODE));
    assert!(greeting.is_some());
    assert_eq!(ws.broadcast(None).to.len(), 2);
    close_session(&mut ws, session);
    assert_eq!(ws.broadcast(None).to, vec![(1, &6)]);
}

#[test]
fn only_texts_are_handled() {
    let got: Vec<Received> = frames().into_iter().map(on_frame).collect();
    assert_eq!(
        got,
        vec![
            Received::Message("t".to_string()),
            Received::Ignored,
            Received::Ignored,
            Received::Ignored,
            Received::Closed,
            Received::Closed,
        ]
    );
}

#[test]
fn the_front_end_is_not_listened_to() {
    let got: Vec<Received> = frames().into_iter().map(on_frontend_frame).collect();
    assert_eq!(
        got,
        vec![
            Received::Ignored,
            Received::Ignored,
            Received::Ignored,
            Received::Ignored,
            Received::Closed,
            Received::Closed,
        ]
    );
}

#[test]
fn sending_goes_on_until_it_fails() {
    assert_eq!(send_step::<u8>(SendEvent::PingDue), SendStep::SendPing);
    assert_eq!(send_step(SendEvent::Queued(3)), SendStep::Send(3));
    assert_eq!(send_step::<u8>(SendEvent::Sent { ok: true }), SendStep::Wait);
    assert_eq!(send_step::<u8>(SendEvent::Sent { ok: false }), SendStep::Stop);
    assert_eq!(PING_SECS, 30);
}

#[test]
fn pings_come_from_pk() {
    let ping = ping_message();
    assert_eq!(ping.event, OutgoingEvent::Ping);
    assert_eq!(ping.source, "pk");
    assert_eq!(ping.payload, Payload::Empty);
}

#[test]
fn front_end_connections_are_counted() {
    let mut frontend: FrontendWsManager<u8> = FrontendWsManager::default();
    assert_eq!(frontend.conn_count(), 0);
    let a = open_frontend_session(&mut frontend, 1);
    let b = open_frontend_session(&mut frontend, 2);
    assert_ne!(a, b);
    assert_eq!(frontend.conn_count(), 2);
    frontend.remove(a);
    frontend.remove(a);
    assert_eq!(frontend.conn_count(), 1);
    let d = frontend.broadcast(Some("x".to_string())).unwrap();
    assert_eq!(d.text, "x");
    assert_eq!(d.to, vec![(b, &2)]);
}

#[test]
fn front_end_broadcasts_reach_everyone_or_nobody() {
    let mut frontend: FrontendWsManager<u8> = FrontendWsManager::new();
    frontend.register(1, 11);
    frontend.register(2, 12);
    frontend.register(2, 13);
    assert!(frontend.broadcast(None).is_none());
    let d = frontend.broadcast(Some(String::new())).unwrap();
    let mut to: Vec<(u128, u8)> = d.to.iter().map(|(id, tx)| (*id, **tx)).collect();
    to.sort();
    assert_eq!(to, vec![(1, 11), (2, 13)]);
}

#[test]
fn changes_are_noted_and_cleared() {
    let mut frontend: FrontendWsManager<u8> = FrontendWsManager::new();
    assert!(frontend.check_and_clear_dirty());
    assert!(!frontend.check_and_clear_dirty());
    frontend.notify_update();
    frontend.notify_update();
    assert!(frontend.check_and_clear_dirty());
    assert!(!frontend.check_and_clear_dirty());
}
