use pk::broadcaster::{
    frontend_node, readable_rows, realtime_push, realtime_push_at, Broadcaster, FrontendNodeState,
    FrontendPushMsg, Tick, CACHE_TTL_NANOS, FULL_INTERVAL_NANOS, TICK_MILLIS,
};
use pk::frontend::FrontendWsManager;
use pk::models::{Double, NodeInfo, NodeRealtime, TaskProgressState};
use std::collections::HashMap;

const NODE: u128 = 0x67e55044_10b1_426f_9247_bb680e5fe0c8;
const SECOND: u128 = 1_000_000_000;

fn row(id: &str) -> NodeInfo {
    NodeInfo {
        id: id.to_string(),
        hostname: "host".to_string(),
        platform: "linux".to_string(),
        arch: "arm64".to_string(),
        version: "1".to_string(),
        status: "online".to_string(),
        last_seen: "seen".to_string(),
    }
}

fn task() -> TaskProgressState {
    TaskProgressState {
        dispatch_id: 5,
        task_name: "name".to_string(),
        percent: Double { bits: 50.0f64.to_bits() },
        downloaded_bytes: 5,
        total_size: 10,
        speed_bps: 20,
        active_connections: 3,
        elapsed_secs: Double { bits: 1.5f64.to_bits() },
        updated_at: "t".to_string(),
    }
}

fn realtime(node: u128) -> HashMap<u128, NodeRealtime> {
    let mut map = HashMap::new();
    map.insert(
        node,
        NodeRealtime {
            total_speed_bps: 99,
            active_tasks: vec![task()],
            updated_at: "t".to_string(),
        },
    );
    map
}

fn shown(node_id: u128, total_speed_bps: u64, active_tasks: Vec<TaskProgressState>) -> FrontendNodeState {
    FrontendNodeState {
        node_id,
        hostname: "host".to_string(),
        platform: "linux".to_string(),
        version: "1".to_string(),
        status: "online".to_string(),
        total_speed_bps,
        active_tasks,
        last_seen: "seen".to_string(),
    }
}

fn connected() -> FrontendWsManager<u8> {
    let mut frontend: FrontendWsManager<u8> = FrontendWsManager::new();
    frontend.register(1, 1);
    frontend
}

#[test]
fn intervals() {
    assert_eq!(TICK_MILLIS, 50);
    assert_eq!(FULL_INTERVAL_NANOS, SECOND);
    assert_eq!(CACHE_TTL_NANOS, SECOND);
}

#[test]
fn nothing_happens_while_nobody_is_connected() {
    let mut frontend: FrontendWsManager<u8> = FrontendWsManager::new();
    let mut b = Broadcaster::new(0);
    assert_eq!(b.tick(&mut frontend, 10 * SECOND), Tick::Skip);
    assert!(frontend.check_and_clear_dirty());
    // The push that was due still is, once somebody connects.
    frontend.register(1, 1);
    assert_eq!(b.tick(&mut frontend, 10 * SECOND), Tick::Query);
}

#[test]
fn changes_are_pushed_once() {
    let mut frontend = connected();
    let mut b = Broadcaster::new(0);
    assert_eq!(b.tick(&mut frontend, 1), Tick::Query);
    assert_eq!(b.loaded(Some(vec![row("a")]), 2), Some(vec![row("a")]));
    assert_eq!(b.tick(&mut frontend, 3), Tick::Skip);
    frontend.notify_update();
    assert_eq!(b.tick(&mut frontend, 4), Tick::Push(vec![row("a")]));
    assert_eq!(b.tick(&mut frontend, 5), Tick::Skip);
}

#[test]
fn a_push_is_due_every_second() {
    let mut frontend = connected();
    let mut b = Broadcaster::new(100);
    frontend.check_and_clear_dirty();
    assert_eq!(b.tick(&mut frontend, 99 + SECOND), Tick::Skip);
    assert_eq!(b.tick(&mut frontend, 100 + SECOND), Tick::Query);
    assert_eq!(b.tick(&mut frontend, 99 + 2 * SECOND), Tick::Skip);
    assert_eq!(b.tick(&mut frontend, 100 + 2 * SECOND), Tick::Query);
}

#[test]
fn rows_are_reused_for_a_second() {
    let mut frontend = connected();
    let mut b = Broadcaster::new(0);
    b.loaded(Some(vec![row("a"), row("b")]), 500);
    assert_eq!(
        b.tick(&mut frontend, 499 + SECOND),
        Tick::Push(vec![row("a"), row("b")])
    );
    frontend.notify_update();
    assert_eq!(b.tick(&mut frontend, 500 + SECOND), Tick::Query);
}

#[test]
fn a_clock_that_went_back_counts_as_standing_still() {
    let mut frontend = connected();
    let mut b = Broadcaster::new(5 * SECOND);
    b.loaded(Some(vec![row("a")]), 5 * SECOND);
    assert_eq!(b.tick(&mut frontend, 0), Tick::Push(vec![row("a")]));
    assert_eq!(b.tick(&mut frontend, 0), Tick::Skip);
}

#[test]
fn a_failed_query_pushes_nothing_and_is_tried_again() {
    let mut frontend = connected();
    let mut b = Broadcaster::new(0);
    b.loaded(Some(vec![row("a")]), 0);
    assert_eq!(b.tick(&mut frontend, SECOND), Tick::Query);
    assert_eq!(b.loaded(None, SECOND), None);
    assert_eq!(b.tick(&mut frontend, SECOND + 1), Tick::Skip);
    assert_eq!(b.tick(&mut frontend, 2 * SECOND), Tick::Query);
}

#[test]
fn unreadable_rows_are_left_out() {
    assert_eq!(
        readable_rows(vec![Some(row("a")), None, Some(row("b")), None]),
        vec![row("a"), row("b")]
    );
    assert_eq!(readable_rows(vec![None]), vec![]);
    assert_eq!(readable_rows(vec![]), vec![]);
}

#[test]
fn nodes_are_shown_with_their_live_state() {
    let push = realtime_push_at(
        vec![
            row("67e55044-10b1-426f-9247-bb680e5fe0c8"),
            row("00000000-0000-0000-0000-000000000001"),
            row("nonsense"),
        ],
        &realtime(NODE),
        "at".to_string(),
    );
    assert_eq!(
        push,
        FrontendPushMsg::Realtime {
            nodes: vec![
                shown(NODE, 99, vec![task()]),
                shown(1, 0, vec![]),
                shown(0, 0, vec![]),
            ],
            timestamp: "at".to_string(),
        }
    );
}

#[test]
fn an_unreadable_identifier_counts_as_nil() {
    let live = realtime(0);
    assert_eq!(frontend_node(row("x"), None, &live), shown(0, 99, vec![task()]));
    assert_eq!(frontend_node(row("x"), Some(3), &live), shown(3, 0, vec![]));
}

#[test]
fn pushes_are_stamped() {
    match realtime_push(vec![row("x")], &HashMap::new()) {
        FrontendPushMsg::Realtime { nodes, timestamp } => {
            assert_eq!(nodes, vec![shown(0, 0, vec![])]);
            assert!(timestamp.ends_with("+00:00"));
            assert!(chrono::DateTime::parse_from_rfc3339(&timestamp).is_ok());
        }
        other => panic!("{:?}", other),
    }
}
