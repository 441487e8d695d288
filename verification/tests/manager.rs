use pk::manager::{Audience, Delivery, WsManager};
use pk::models::{Double, NodeRealtime, TaskProgressState};
use pk::progress::{drop_dispatch, put_progress};

fn progress(dispatch_id: u128, downloaded_bytes: u64) -> TaskProgressState {
    TaskProgressState {
        dispatch_id,
        task_name: format!("task {}", dispatch_id),
        percent: Double { bits: 12.5f64.to_bits() },
        downloaded_bytes,
        total_size: 1000,
        speed_bps: 7,
        active_connections: 2,
        elapsed_secs: Double { bits: 0.5f64.to_bits() },
        updated_at: "t".to_string(),
    }
}

fn targets<'a>(d: &Delivery<'a, &'static str>) -> Vec<(u128, &'static str)> {
    let mut to: Vec<(u128, &'static str)> = d.to.iter().map(|(id, tx)| (*id, **tx)).collect();
    to.sort();
    to
}

fn text(s: &str) -> Option<String> {
    Some(s.to_string())
}

#[test]
fn broadcast_reaches_bound_connections_only() {
    let mut ws: WsManager<&'static str> = WsManager::default();
    ws.register(1, "a", Some(10));
    ws.register(2, "b", None);
    ws.register(3, "c", Some(11));
    ws.register(4, "d", Some(10));
    let d = ws.broadcast(text("hi"));
    assert_eq!(d.text, "hi");
    assert_eq!(targets(&d), vec![(1, "a"), (3, "c"), (4, "d")]);
    assert_eq!(targets(&ws.deliver(Audience::All, text("hi"))), targets(&d));
}

#[test]
fn send_to_node_reaches_all_its_connections() {
    let mut ws: WsManager<&'static str> = WsManager::new();
    ws.register(1, "a", Some(10));
    ws.register(2, "b", Some(11));
    ws.register(3, "c", Some(10));
    assert_eq!(targets(&ws.send_to_node(10, text("x"))), vec![(1, "a"), (3, "c")]);
    assert_eq!(
        targets(&ws.deliver(Audience::Node(11), text("x"))),
        vec![(2, "b")]
    );
    assert_eq!(targets(&ws.send_to_node(12, text("x"))), vec![]);
}

#[test]
fn a_message_that_was_not_encoded_is_empty() {
    let mut ws: WsManager<&'static str> = WsManager::new();
    ws.register(1, "a", Some(10));
    let d = ws.broadcast(None);
    assert_eq!(d.text, "");
    assert_eq!(targets(&d), vec![(1, "a")]);
}

#[test]
fn binding_and_removing() {
    let mut ws: WsManager<&'static str> = WsManager::new();
    ws.register(1, "a", None);
    assert_eq!(targets(&ws.send_to_node(10, text("x"))), vec![]);
    ws.bind_node(1, 10);
    ws.bind_node(2, 10);
    assert_eq!(targets(&ws.send_to_node(10, text("x"))), vec![(1, "a")]);
    ws.bind_node(1, 11);
    assert_eq!(targets(&ws.send_to_node(10, text("x"))), vec![]);
    assert_eq!(targets(&ws.send_to_node(11, text("x"))), vec![(1, "a")]);
    ws.remove(1);
    ws.remove(1);
    assert_eq!(targets(&ws.broadcast(text("x"))), vec![]);
}

#[test]
fn registering_again_replaces() {
    let mut ws: WsManager<&'static str> = WsManager::new();
    ws.register(1, "a", Some(10));
    ws.register(1, "b", Some(11));
    assert_eq!(targets(&ws.broadcast(text("x"))), vec![(1, "b")]);
}

#[test]
fn speed_is_kept_with_the_tasks() {
    let mut ws: WsManager<&'static str> = WsManager::new();
    assert_eq!(ws.get_node_realtime(10), None);
    ws.set_task_progress(10, progress(1, 5), "t1".to_string());
    ws.set_node_speed(10, 99, "t2".to_string());
    assert_eq!(
        ws.get_node_realtime(10),
        Some(NodeRealtime {
            total_speed_bps: 99,
            active_tasks: vec![progress(1, 5)],
            updated_at: "t2".to_string(),
        })
    );
    ws.set_task_progress(10, progress(1, 6), "t3".to_string());
    assert_eq!(
        ws.get_node_realtime(10),
        Some(NodeRealtime {
            total_speed_bps: 99,
            active_tasks: vec![progress(1, 6)],
            updated_at: "t3".to_string(),
        })
    );
    assert_eq!(ws.get_node_realtime(11), None);
}

#[test]
fn finished_tasks_are_dropped() {
    let mut ws: WsManager<&'static str> = WsManager::new();
    ws.clear_task_progress(10, 1, "t0".to_string());
    assert_eq!(ws.get_node_realtime(10), None);
    ws.set_task_progress(10, progress(1, 5), "t1".to_string());
    ws.set_task_progress(10, progress(2, 5), "t1".to_string());
    ws.set_task_progress(11, progress(1, 5), "t1".to_string());
    ws.clear_task_progress(10, 1, "t2".to_string());
    ws.clear_task_progress(10, 3, "t3".to_string());
    let all = ws.get_all_realtime();
    assert_eq!(all.len(), 2);
    assert_eq!(all[&10].active_tasks, vec![progress(2, 5)]);
    assert_eq!(all[&10].updated_at, "t3");
    assert_eq!(all[&11].active_tasks, vec![progress(1, 5)]);
    assert_eq!(all[&11].updated_at, "t1");
}

#[test]
fn updates_read_the_clock() {
    let mut ws: WsManager<&'static str> = WsManager::new();
    ws.update_task_progress(10, progress(1, 5));
    let first = ws.get_node_realtime(10).unwrap();
    assert_eq!(first.active_tasks, vec![progress(1, 5)]);
    assert!(first.updated_at.ends_with("+00:00"));
    ws.remove_task_progress(10, 1);
    let second = ws.get_node_realtime(10).unwrap();
    assert!(second.active_tasks.is_empty());
    assert!(second.updated_at >= first.updated_at);
}

#[test]
fn progress_keeps_its_place() {
    let mut tasks = vec![progress(1, 1), progress(2, 1), progress(3, 1)];
    put_progress(&mut tasks, progress(2, 9));
    assert_eq!(tasks, vec![progress(1, 1), progress(2, 9), progress(3, 1)]);
    put_progress(&mut tasks, progress(4, 1));
    assert_eq!(tasks.len(), 4);
    assert_eq!(tasks[3], progress(4, 1));
    drop_dispatch(&mut tasks, 4);
    assert_eq!(tasks, vec![progress(1, 1), progress(2, 9), progress(3, 1)]);
}

#[test]
fn dropping_takes_every_entry_of_a_dispatch() {
    let mut tasks = vec![progress(1, 1), progress(2, 1), progress(1, 2)];
    put_progress(&mut tasks, progress(1, 3));
    assert_eq!(tasks, vec![progress(1, 3), progress(2, 1), progress(1, 2)]);
    drop_dispatch(&mut tasks, 1);
    assert_eq!(tasks, vec![progress(2, 1)]);
}
