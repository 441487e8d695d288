use pk::client::{
    classify, handle_client_msg, handle_client_msg_at, health_updated, transaction_done,
    transaction_done_at, ClientMsg, EventKind, FollowUp, Step, Work, EVENT_NODE_HEARTBEAT,
    EVENT_PING, EVENT_PONG, EVENT_TASK_STARTED,
};
use pk::frontend::FrontendWsManager;
use pk::manager::WsManager;
use pk::models::{
    AgentReportReq, DiscoveryResultMsg, DiscoveryStartedMsg, Double, HealthUpdate,
    HeartbeatPayload, RegisterPayload, StatusPayload, TaskProgressMsg, TaskProgressState,
    TaskReportMsg, TaskStartedPayload,
};
use pk::statement::{load_statement, register_statements, touch_statement};

const CONN: u128 = 1;
const NODE: u128 = 10;

fn now() -> String {
    "now".to_string()
}

/// Managers with one connection that has no node, and with nothing pending.
fn managers() -> (WsManager<u8>, FrontendWsManager<u8>) {
    let mut ws: WsManager<u8> = WsManager::new();
    ws.register(CONN, 7, None);
    let mut frontend: FrontendWsManager<u8> = FrontendWsManager::new();
    frontend.check_and_clear_dirty();
    (ws, frontend)
}

fn status() -> StatusPayload {
    StatusPayload {
        active_tasks: 2,
        bytes_downloaded: 300,
        busy: true,
        total_speed_bps: 4000,
        last_error: Some("e".to_string()),
    }
}

fn progress(dispatch_id: u128) -> TaskProgressMsg {
    TaskProgressMsg {
        dispatch_id,
        task_name: "name".to_string(),
        percent: Double { bits: 50.0f64.to_bits() },
        downloaded_bytes: 5,
        total_size: 10,
        speed_bps: 20,
        active_connections: 3,
        elapsed_secs: Double { bits: 1.5f64.to_bits() },
    }
}

fn listed(dispatch_id: u128) -> TaskProgressState {
    TaskProgressState {
        dispatch_id,
        task_name: "name".to_string(),
        percent: Double { bits: 50.0f64.to_bits() },
        downloaded_bytes: 5,
        total_size: 10,
        speed_bps: 20,
        active_connections: 3,
        elapsed_secs: Double { bits: 1.5f64.to_bits() },
        updated_at: now(),
    }
}

fn report(dispatch_id: Option<u128>) -> TaskReportMsg {
    TaskReportMsg {
        dispatch_id,
        task_id: Some(77),
        task_name: "name".to_string(),
        url: "http://x/y".to_string(),
        filename: "y".to_string(),
        file_size: 100,
        downloaded_bytes: 90,
        elapsed_secs: Double { bits: 2.0f64.to_bits() },
        avg_speed_mbps: Double { bits: 3.0f64.to_bits() },
        status: "failed".to_string(),
        success_chunks: 9,
        failed_chunks: 1,
        error_msg: Some("broken".to_string()),
    }
}

fn registration() -> RegisterPayload {
    RegisterPayload {
        node_id: NODE,
        hostname: "host".to_string(),
        platform: "linux".to_string(),
        arch: "arm64".to_string(),
        version: "2".to_string(),
    }
}

fn heartbeat(active_tasks: u32) -> HeartbeatPayload {
    HeartbeatPayload {
        node_id: NODE,
        active_tasks,
        bytes_downloaded: 9,
    }
}

#[test]
fn event_names() {
    assert_eq!(EVENT_PING, "system.ping");
    assert_eq!(EVENT_PONG, "system.pong");
    assert_eq!(EVENT_NODE_HEARTBEAT, "node.heartbeat");
    assert_eq!(EVENT_TASK_STARTED, "task.started");
}

#[test]
fn events_are_told_apart() {
    let kinds = [
        ("node.status", EventKind::NodeStatus),
        ("task.started", EventKind::TaskStarted),
        ("task.progress", EventKind::TaskProgress),
        ("task.completed", EventKind::TaskReport),
        ("task.failed", EventKind::TaskReport),
        ("system.pong", EventKind::Pong),
        ("component.registered", EventKind::ComponentRegistered),
        ("discovery.started", EventKind::DiscoveryStarted),
        ("discovery.result", EventKind::DiscoveryResult),
        ("node.heartbeat", EventKind::NodeHeartbeat),
        ("system.ping", EventKind::Other),
        ("", EventKind::Other),
        ("Node.status", EventKind::Other),
    ];
    for (name, kind) in kinds {
        assert_eq!(classify(name), kind, "{}", name);
    }
}

#[test]
fn a_status_is_stored_before_the_speed_is_shown() {
    let (mut ws, mut frontend) = managers();
    let msg = ClientMsg::NodeStatus(Some(status()));
    let step = handle_client_msg_at(&mut ws, &mut frontend, CONN, Some(NODE), msg, now());
    let follow_up = FollowUp::NodeSpeed {
        node_id: NODE,
        total_speed_bps: 4000,
    };
    assert_eq!(
        step,
        Step::Transaction {
            work: Work::Execute(load_statement(NODE, 2, 300, now())),
            follow_up,
        }
    );
    assert_eq!(ws.get_node_realtime(NODE), None);
    assert!(!frontend.check_and_clear_dirty());

    let later = "later".to_string();
    let end = transaction_done_at(&mut ws, &mut frontend, follow_up, true, later);
    assert_eq!(end, Step::Finished);
    let state = ws.get_node_realtime(NODE).unwrap();
    assert_eq!(state.total_speed_bps, 4000);
    assert_eq!(state.updated_at, "later");
    assert!(frontend.check_and_clear_dirty());
}

#[test]
fn a_failed_transaction_leaves_no_trace() {
    let (mut ws, mut frontend) = managers();
    let follow_up = FollowUp::NodeSpeed {
        node_id: NODE,
        total_speed_bps: 4000,
    };
    let end = transaction_done(&mut ws, &mut frontend, follow_up, false);
    assert_eq!(end, Step::Failed);
    assert_eq!(ws.get_node_realtime(NODE), None);
    assert!(!frontend.check_and_clear_dirty());
}

#[test]
fn an_unreadable_status_counts_as_blank() {
    let (mut ws, mut frontend) = managers();
    let msg = ClientMsg::NodeStatus(None);
    let step = handle_client_msg_at(&mut ws, &mut frontend, CONN, Some(NODE), msg, now());
    assert_eq!(
        step,
        Step::Transaction {
            work: Work::Execute(load_statement(NODE, 0, 0, now())),
            follow_up: FollowUp::NodeSpeed {
                node_id: NODE,
                total_speed_bps: 0,
            },
        }
    );
    assert_eq!(
        StatusPayload::default(),
        StatusPayload {
            active_tasks: 0,
            bytes_downloaded: 0,
            busy: false,
            total_speed_bps: 0,
            last_error: None,
        }
    );
}

#[test]
fn a_started_task_is_marked() {
    let (mut ws, mut frontend) = managers();
    let msg = ClientMsg::TaskStarted(Some(TaskStartedPayload { dispatch_id: 5 }));
    let step = handle_client_msg_at(&mut ws, &mut frontend, CONN, None, msg, now());
    assert_eq!(
        step,
        Step::Transaction {
            work: Work::MarkRunning(5),
            follow_up: FollowUp::Nothing,
        }
    );
    let end = transaction_done(&mut ws, &mut frontend, FollowUp::Nothing, true);
    assert_eq!(end, Step::Finished);
    assert!(frontend.check_and_clear_dirty());
}

#[test]
fn progress_is_listed_until_the_report() {
    let (mut ws, mut frontend) = managers();
    for dispatch in [5, 6] {
        let msg = ClientMsg::TaskProgress(Some(progress(dispatch)));
        let step = handle_client_msg_at(&mut ws, &mut frontend, CONN, Some(NODE), msg, now());
        assert_eq!(step, Step::Finished);
        assert!(frontend.check_and_clear_dirty());
    }
    assert_eq!(
        ws.get_node_realtime(NODE).unwrap().active_tasks,
        vec![listed(5), listed(6)]
    );
    let msg = ClientMsg::TaskReport(Some(report(Some(5))));
    let step = handle_client_msg_at(&mut ws, &mut frontend, CONN, Some(NODE), msg, now());
    assert_eq!(ws.get_node_realtime(NODE).unwrap().active_tasks, vec![listed(6)]);
    assert_eq!(
        step,
        Step::Transaction {
            work: Work::ApplyReport(AgentReportReq {
                node_id: NODE,
                dispatch_id: Some(5),
                task_id: Some(77),
                task_name: "name".to_string(),
                url: "http://x/y".to_string(),
                filename: "y".to_string(),
                file_size: 100,
                downloaded_bytes: 90,
                elapsed_secs: Double { bits: 2.0f64.to_bits() },
                avg_speed_mbps: Double { bits: 3.0f64.to_bits() },
                status: "failed".to_string(),
                success_chunks: 9,
                failed_chunks: 1,
                error_msg: Some("broken".to_string()),
            }),
            follow_up: FollowUp::Nothing,
        }
    );
    // The task is gone from the live state even if the report cannot be stored.
    let end = transaction_done(&mut ws, &mut frontend, FollowUp::Nothing, false);
    assert_eq!(end, Step::Failed);
    assert_eq!(ws.get_node_realtime(NODE).unwrap().active_tasks, vec![listed(6)]);
}

#[test]
fn a_report_without_dispatch_drops_nothing() {
    let (mut ws, mut frontend) = managers();
    ws.set_task_progress(NODE, listed(5), now());
    let msg = ClientMsg::TaskReport(Some(report(None)));
    let step = handle_client_msg_at(&mut ws, &mut frontend, CONN, Some(NODE), msg, now());
    assert!(matches!(step, Step::Transaction { work: Work::ApplyReport(_), .. }));
    assert_eq!(ws.get_node_realtime(NODE).unwrap().active_tasks, vec![listed(5)]);
}

#[test]
fn a_pong_notes_the_node() {
    let (mut ws, mut frontend) = managers();
    let step = handle_client_msg_at(
        &mut ws,
        &mut frontend,
        CONN,
        Some(NODE),
        ClientMsg::Pong,
        now(),
    );
    assert_eq!(
        step,
        Step::Transaction {
            work: Work::Execute(touch_statement(NODE, now())),
            follow_up: FollowUp::Nothing,
        }
    );
}

#[test]
fn a_registration_binds_the_connection() {
    let (mut ws, mut frontend) = managers();
    assert!(ws.broadcast(None).to.is_empty());
    let msg = ClientMsg::ComponentRegistered(Some(registration()));
    let step = handle_client_msg_at(&mut ws, &mut frontend, CONN, None, msg, now());
    assert_eq!(
        step,
        Step::Transaction {
            work: Work::Register(register_statements(registration(), now())),
            follow_up: FollowUp::Nothing,
        }
    );
    assert_eq!(ws.send_to_node(NODE, None).to, vec![(CONN, &7)]);
    // An unknown connection is not bound.
    let msg = ClientMsg::ComponentRegistered(Some(registration()));
    handle_client_msg_at(&mut ws, &mut frontend, 2, None, msg, now());
    assert_eq!(ws.send_to_node(NODE, None).to, vec![(CONN, &7)]);
}

#[test]
fn a_heartbeat_updates_the_registry_after_the_database() {
    let (mut ws, mut frontend) = managers();
    let msg = ClientMsg::NodeHeartbeat(Some(heartbeat(3)));
    let step = handle_client_msg_at(&mut ws, &mut frontend, CONN, None, msg, now());
    let follow_up = FollowUp::NodeHealth {
        node_id: NODE,
        active_tasks: 3,
    };
    assert_eq!(
        step,
        Step::Transaction {
            work: Work::Execute(load_statement(NODE, 3, 9, now())),
            follow_up,
        }
    );
    assert_eq!(
        transaction_done(&mut ws, &mut frontend, follow_up, true),
        Step::UpdateHealth(HealthUpdate {
            agent_id: NODE,
            health: "healthy".to_string(),
            load_quarters: 3,
        })
    );
    assert!(!frontend.check_and_clear_dirty());
    assert_eq!(health_updated(&mut frontend), Step::Finished);
    assert!(frontend.check_and_clear_dirty());
    assert_eq!(
        transaction_done(&mut ws, &mut frontend, follow_up, false),
        Step::Failed
    );
}

#[test]
fn load_is_a_quarter_per_task() {
    let (mut ws, mut frontend) = managers();
    for active_tasks in [0, 1, 2, 3, 4, 5, 255, 256, 257, u32::MAX] {
        let follow_up = FollowUp::NodeHealth {
            node_id: NODE,
            active_tasks,
        };
        let quarters = match transaction_done(&mut ws, &mut frontend, follow_up, true) {
            Step::UpdateHealth(h) => h.load_quarters,
            other => panic!("{:?}", other),
        };
        let load = if active_tasks > 0 {
            (active_tasks as f32 / 4.0).min(1.0)
        } else {
            0.0
        };
        assert_eq!(quarters as f32 / 4.0, load);
    }
}

#[test]
fn messages_that_need_a_node_are_taken_in_without_effect() {
    let msgs = vec![
        ClientMsg::NodeStatus(Some(status())),
        ClientMsg::TaskProgress(Some(progress(5))),
        ClientMsg::TaskReport(Some(report(Some(5)))),
        ClientMsg::Pong,
    ];
    for msg in msgs {
        let (mut ws, mut frontend) = managers();
        let step = handle_client_msg(&mut ws, &mut frontend, CONN, None, msg);
        assert_eq!(step, Step::Finished);
        assert!(ws.get_all_realtime().is_empty());
        assert!(ws.broadcast(None).to.is_empty());
        assert!(frontend.check_and_clear_dirty());
    }
}

#[test]
fn unreadable_and_unused_messages_only_notify() {
    let msgs = vec![
        ClientMsg::TaskStarted(None),
        ClientMsg::TaskProgress(None),
        ClientMsg::TaskReport(None),
        ClientMsg::ComponentRegistered(None),
        ClientMsg::DiscoveryStarted(None),
        ClientMsg::DiscoveryStarted(Some(DiscoveryStartedMsg::default())),
        ClientMsg::DiscoveryResult(None),
        ClientMsg::DiscoveryResult(Some(DiscoveryResultMsg::default())),
        ClientMsg::NodeHeartbeat(None),
        ClientMsg::Other,
    ];
    for msg in msgs {
        let (mut ws, mut frontend) = managers();
        let step = handle_client_msg(&mut ws, &mut frontend, CONN, Some(NODE), msg);
        assert_eq!(step, Step::Finished);
        assert!(ws.get_all_realtime().is_empty());
        assert!(ws.broadcast(None).to.is_empty());
        assert!(frontend.check_and_clear_dirty());
    }
}

#[test]
fn a_malformed_message_is_refused_without_effect() {
    let (mut ws, mut frontend) = managers();
    let msg = ClientMsg::Malformed;
    let step = handle_client_msg(&mut ws, &mut frontend, CONN, Some(NODE), msg);
    assert_eq!(step, Step::Failed);
    assert!(ws.get_all_realtime().is_empty());
    assert!(ws.broadcast(None).to.is_empty());
    assert!(!frontend.check_and_clear_dirty());
}

#[test]
fn reports_of_unknown_nodes_leave_no_state() {
    let (mut ws, mut frontend) = managers();
    let msg = ClientMsg::TaskReport(Some(report(Some(5))));
    let step = handle_client_msg(&mut ws, &mut frontend, CONN, Some(NODE), msg);
    assert!(matches!(step, Step::Transaction { work: Work::ApplyReport(_), .. }));
    assert!(ws.get_all_realtime().is_empty());
    ws.remove_task_progress(NODE, 5);
    assert!(ws.get_all_realtime().is_empty());
}

#[test]
fn payloads_can_be_cloned() {
    assert_eq!(status().clone(), status());
    assert_eq!(progress(5).clone(), progress(5));
    assert_eq!(report(None).clone(), report(None));
    assert_eq!(registration().clone(), registration());
    assert_eq!(heartbeat(1).clone(), heartbeat(1));
}

#[test]
fn progress_now_is_stamped_once() {
    let (mut ws, mut frontend) = managers();
    let msg = ClientMsg::TaskProgress(Some(progress(5)));
    handle_client_msg(&mut ws, &mut frontend, CONN, Some(NODE), msg);
    let state = ws.get_node_realtime(NODE).unwrap();
    assert_eq!(state.active_tasks[0].updated_at, state.updated_at);
    assert!(state.updated_at.ends_with("+00:00"));
}
