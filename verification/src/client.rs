//! What a message from a node does.
//!
//! [`handle_client_msg`] takes a message in and says which database transaction it needs, if any.
//! The driver runs the transaction and reports to [`transaction_done`] how it ended. Where the
//! service registry is to be updated then, the driver does so and reports to [`health_updated`].

use vstd::prelude::*;

use crate::clock::now_rfc3339;
use crate::frontend::FrontendWsManager;
use crate::manager::{NodeConn, WsManager};
use crate::models::{
    AgentReportReq, DiscoveryResultMsg, DiscoveryStartedMsg, HealthUpdate, HeartbeatPayload,
    NodeRealtimeView, RegisterPayload, StatusPayload, TaskProgressMsg, TaskProgressState,
    TaskReportMsg, TaskStartedPayload,
};
use crate::statement::{
    load_statement, register_statements, touch_statement, RegisterNode, Statement,
};
use crate::text::same_text;

verus! {

/// Keeps a node's connection alive (`pk` to node).
pub const EVENT_PING: &'static str = "system.ping";

/// The answer to a ping (node to `pk`).
pub const EVENT_PONG: &'static str = "system.pong";

/// The heartbeat of a node (node to `pk`).
pub const EVENT_NODE_HEARTBEAT: &'static str = "node.heartbeat";

/// A task was started (node to `pk`).
pub const EVENT_TASK_STARTED: &'static str = "task.started";

/// The kinds of messages that a node sends.
#[derive(Debug, Clone, Copy, PartialEq, Eq, Structural)]
pub enum EventKind {
    NodeStatus,
    TaskStarted,
    TaskProgress,
    /// A task was completed, or it failed.
    TaskReport,
    Pong,
    ComponentRegistered,
    DiscoveryStarted,
    DiscoveryResult,
    NodeHeartbeat,
    /// Anything else. It is ignored.
    Other,
}

/// A message from a node. A payload that could not be read is `None`.
#[derive(Debug, PartialEq)]
pub enum ClientMsg {
    NodeStatus(Option<StatusPayload>),
    TaskStarted(Option<TaskStartedPayload>),
    TaskProgress(Option<TaskProgressMsg>),
    TaskReport(Option<TaskReportMsg>),
    Pong,
    ComponentRegistered(Option<RegisterPayload>),
    DiscoveryStarted(Option<DiscoveryStartedMsg>),
    DiscoveryResult(Option<DiscoveryResultMsg>),
    NodeHeartbeat(Option<HeartbeatPayload>),
    Other,
    /// A text that is no message at all.
    Malformed,
}

/// What is done within a transaction.
#[derive(Debug, PartialEq)]
pub enum Work {
    /// Execute a statement.
    Execute(Statement),
    /// Mark a dispatch as running.
    MarkRunning(u128),
    /// Take in the report on a finished or failed task.
    ApplyReport(AgentReportReq),
    /// Register a node.
    Register(RegisterNode),
}

/// What follows a transaction that was committed.
#[derive(Debug, Clone, Copy, PartialEq, Eq, Structural)]
pub enum FollowUp {
    Nothing,
    /// The node's speed is recorded.
    NodeSpeed { node_id: u128, total_speed_bps: u64 },
    /// The service registry learns that the node is healthy.
    NodeHealth { node_id: u128, active_tasks: u32 },
}

/// How the handling of a message goes on.
#[derive(Debug, PartialEq)]
pub enum Step {
    /// It is over.
    Finished,
    /// It is over; the message was malformed, or its transaction failed.
    Failed,
    /// A transaction is to be run, and its end to be reported to [`transaction_done`].
    Transaction { work: Work, follow_up: FollowUp },
    /// The service registry is to be updated, and the end of that to be reported to
    /// [`health_updated`].
    UpdateHealth(HealthUpdate),
}

/// The kind of message that an event type stands for.
pub open spec fn kind_of(event_type: Seq<char>) -> EventKind {
    if event_type == "node.status"@ {
        EventKind::NodeStatus
    } else if event_type == EVENT_TASK_STARTED@ {
        EventKind::TaskStarted
    } else if event_type == "task.progress"@ {
        EventKind::TaskProgress
    } else if event_type == "task.completed"@ || event_type == "task.failed"@ {
        EventKind::TaskReport
    } else if event_type == EVENT_PONG@ {
        EventKind::Pong
    } else if event_type == "component.registered"@ {
        EventKind::ComponentRegistered
    } else if event_type == "discovery.started"@ {
        EventKind::DiscoveryStarted
    } else if event_type == "discovery.result"@ {
        EventKind::DiscoveryResult
    } else if event_type == EVENT_NODE_HEARTBEAT@ {
        EventKind::NodeHeartbeat
    } else {
        EventKind::Other
    }
}

/// The live progress that a node's message tells of.
pub open spec fn progress_state(p: TaskProgressMsg, now: String) -> TaskProgressState {
    TaskProgressState {
        dispatch_id: p.dispatch_id,
        task_name: p.task_name,
        percent: p.percent,
        downloaded_bytes: p.downloaded_bytes,
        total_size: p.total_size,
        speed_bps: p.speed_bps,
        active_connections: p.active_connections,
        elapsed_secs: p.elapsed_secs,
        updated_at: now,
    }
}

/// A node's report as the scheduler takes it in.
pub open spec fn agent_report(node_id: u128, p: TaskReportMsg) -> AgentReportReq {
    AgentReportReq {
        node_id,
        dispatch_id: p.dispatch_id,
        task_id: p.task_id,
        task_name: p.task_name,
        url: p.url,
        filename: p.filename,
        file_size: p.file_size,
        downloaded_bytes: p.downloaded_bytes,
        elapsed_secs: p.elapsed_secs,
        avg_speed_mbps: p.avg_speed_mbps,
        status: p.status,
        success_chunks: p.success_chunks,
        failed_chunks: p.failed_chunks,
        error_msg: p.error_msg,
    }
}

/// The status that a message reports; a payload that could not be read counts as blank.
pub open spec fn status_of(p: Option<StatusPayload>) -> StatusPayload {
    match p {
        Some(p) => p,
        None => StatusPayload::blank(),
    }
}

/// The connections once a message has come in: a registration binds the connection.
pub open spec fn conns_after<T>(
    conns: Map<u128, NodeConn<T>>,
    conn_id: u128,
    msg: ClientMsg,
) -> Map<u128, NodeConn<T>> {
    match msg {
        ClientMsg::ComponentRegistered(Some(p)) => crate::manager::bound(conns, conn_id, p.node_id),
        _ => conns,
    }
}

/// The live states once a message of the node `node_id` has come in: progress is recorded, the
/// progress of a dispatch that is over is dropped.
pub open spec fn realtime_after(
    realtime: Map<u128, NodeRealtimeView>,
    node_id: Option<u128>,
    msg: ClientMsg,
    now: String,
) -> Map<u128, NodeRealtimeView> {
    match (node_id, msg) {
        (
            Some(node),
            ClientMsg::TaskProgress(Some(p)),
        ) => crate::manager::with_task_progress(realtime, node, progress_state(p, now), now@),
        (Some(node), ClientMsg::TaskReport(Some(p))) => match p.dispatch_id {
            Some(dispatch) => crate::manager::without_task_progress(
                realtime,
                node,
                dispatch,
                now@,
            ),
            None => realtime,
        },
        _ => realtime,
    }
}

/// Whether `step` asks for the transaction that a message of the node `node_id` needs, or else is
/// the end, which is a failure for a malformed message.
pub open spec fn step_for(
    step: Step,
    node_id: Option<u128>,
    msg: ClientMsg,
    now: String,
) -> bool {
    match msg {
        ClientMsg::NodeStatus(p) => match node_id {
            Some(node) => step matches Step::Transaction { work: Work::Execute(s), follow_up }
                && s@ == crate::statement::load_node(
                node,
                status_of(p).active_tasks,
                status_of(p).bytes_downloaded,
                now@,
            ) && follow_up == (FollowUp::NodeSpeed {
                node_id: node,
                total_speed_bps: status_of(p).total_speed_bps,
            }),
            None => step is Finished,
        },
        ClientMsg::TaskStarted(Some(p)) => step == (Step::Transaction {
            work: Work::MarkRunning(p.dispatch_id),
            follow_up: FollowUp::Nothing,
        }),
        ClientMsg::TaskReport(Some(p)) => match node_id {
            Some(node) => step == (Step::Transaction {
                work: Work::ApplyReport(agent_report(node, p)),
                follow_up: FollowUp::Nothing,
            }),
            None => step is Finished,
        },
        ClientMsg::Pong => match node_id {
            Some(node) => step matches Step::Transaction { work: Work::Execute(s), follow_up }
                && s@ == crate::statement::touch_node(node, now@) && follow_up is Nothing,
            None => step is Finished,
        },
        ClientMsg::ComponentRegistered(Some(p)) => step matches Step::Transaction {
            work: Work::Register(r),
            follow_up,
        } && r.probe@ == crate::statement::count_node(p.node_id) && r.update@
            == crate::statement::describe_node(p, now@) && r.insert@
            == crate::statement::insert_node(p, now@) && follow_up is Nothing,
        ClientMsg::NodeHeartbeat(Some(p)) => step matches Step::Transaction {
            work: Work::Execute(s),
            follow_up,
        } && s@ == crate::statement::load_node(
            p.node_id,
            p.active_tasks,
            p.bytes_downloaded,
            now@,
        ) && follow_up == (FollowUp::NodeHealth {
            node_id: p.node_id,
            active_tasks: p.active_tasks,
        }),
        ClientMsg::Malformed => step is Failed,
        _ => step is Finished,
    }
}

/// The load of a node in quarters of a full one: four tasks are a full load.
pub open spec fn load_quarters(active_tasks: u32) -> u8 {
    if active_tasks < 4 {
        active_tasks as u8
    } else {
        4
    }
}

/// The live states once a transaction has ended.
pub open spec fn realtime_committed(
    realtime: Map<u128, NodeRealtimeView>,
    follow_up: FollowUp,
    committed: bool,
    now: Seq<char>,
) -> Map<u128, NodeRealtimeView> {
    match follow_up {
        FollowUp::NodeSpeed { node_id, total_speed_bps } if committed => crate::manager::with_speed(
            realtime,
            node_id,
            total_speed_bps,
            now,
        ),
        _ => realtime,
    }
}

/// Whether `step` is what follows a transaction.
pub open spec fn step_after(step: Step, follow_up: FollowUp, committed: bool) -> bool {
    if !committed {
        step is Failed
    } else {
        match follow_up {
            FollowUp::NodeHealth {
                node_id,
                active_tasks,
            } => step matches Step::UpdateHealth(h) && h.agent_id == node_id && h.health@
                == "healthy"@ && h.load_quarters == load_quarters(active_tasks),
            _ => step is Finished,
        }
    }
}

/// Whether changes are unseen by the front end after a step: the end of a message that did not fail
/// is such a change.
pub open spec fn notified(dirty: bool, step: Step) -> bool {
    dirty || step is Finished
}

/// Whether the time matters to a message of the node `node_id`.
pub open spec fn is_timed(
    realtime: Map<u128, NodeRealtimeView>,
    node_id: Option<u128>,
    msg: ClientMsg,
) -> bool {
    match msg {
        ClientMsg::NodeStatus(_) | ClientMsg::Pong => node_id is Some,
        ClientMsg::TaskProgress(p) => node_id is Some && p is Some,
        ClientMsg::TaskReport(p) => {
            &&& node_id is Some && realtime.contains_key(node_id->0)
            &&& p is Some && p->0.dispatch_id is Some
        },
        ClientMsg::ComponentRegistered(p) => p is Some,
        ClientMsg::NodeHeartbeat(p) => p is Some,
        _ => false,
    }
}

/// Whether the time matters to the end of a transaction.
pub open spec fn is_end_timed(follow_up: FollowUp, committed: bool) -> bool {
    follow_up is NodeSpeed && committed
}

/// The kind of message that an event type stands for.
pub fn classify(event_type: &str) -> (r: EventKind)
    ensures
        r == kind_of(event_type@),
{
    if same_text(event_type, "node.status") {
        EventKind::NodeStatus
    } else if same_text(event_type, EVENT_TASK_STARTED) {
        EventKind::TaskStarted
    } else if same_text(event_type, "task.progress") {
        EventKind::TaskProgress
    } else if same_text(event_type, "task.completed") || same_text(event_type, "task.failed") {
        EventKind::TaskReport
    } else if same_text(event_type, EVENT_PONG) {
        EventKind::Pong
    } else if same_text(event_type, "component.registered") {
        EventKind::ComponentRegistered
    } else if same_text(event_type, "discovery.started") {
        EventKind::DiscoveryStarted
    } else if same_text(event_type, "discovery.result") {
        EventKind::DiscoveryResult
    } else if same_text(event_type, EVENT_NODE_HEARTBEAT) {
        EventKind::NodeHeartbeat
    } else {
        EventKind::Other
    }
}

/// Takes a message in that came at `now` over the connection `conn_id`, which was opened for the
/// node `node_id`. The front end is notified once the handling is over without a failure.
pub fn handle_client_msg_at<T, F>(
    ws: &mut WsManager<T>,
    frontend: &mut FrontendWsManager<F>,
    conn_id: u128,
    node_id: Option<u128>,
    msg: ClientMsg,
    now: String,
) -> (r: Step)
    ensures
        final(ws).conns() == conns_after(old(ws).conns(), conn_id, msg),
        final(ws).realtime() == realtime_after(old(ws).realtime(), node_id, msg, now),
        final(frontend).conns() == old(frontend).conns(),
        final(frontend).dirty() == notified(old(frontend).dirty(), r),
        step_for(r, node_id, msg, now),
{
    let step = match msg {
        ClientMsg::NodeStatus(p) => {
            let p = match p {
                Some(p) => p,
                None => StatusPayload::default(),
            };
            match node_id {
                Some(node) => Step::Transaction {
                    work: Work::Execute(
                        load_statement(node, p.active_tasks, p.bytes_downloaded, now),
                    ),
                    follow_up: FollowUp::NodeSpeed {
                        node_id: node,
                        total_speed_bps: p.total_speed_bps,
                    },
                },
                None => Step::Finished,
            }
        },
        ClientMsg::TaskStarted(Some(p)) => Step::Transaction {
            work: Work::MarkRunning(p.dispatch_id),
            follow_up: FollowUp::Nothing,
        },
        ClientMsg::TaskProgress(Some(p)) => {
            if let Some(node) = node_id {
                let progress = TaskProgressState {
                    dispatch_id: p.dispatch_id,
                    task_name: p.task_name,
                    percent: p.percent,
                    downloaded_bytes: p.downloaded_bytes,
                    total_size: p.total_size,
                    speed_bps: p.speed_bps,
                    active_connections: p.active_connections,
                    elapsed_secs: p.elapsed_secs,
                    updated_at: now.clone(),
                };
                ws.set_task_progress(node, progress, now);
            }
            Step::Finished
        },
        ClientMsg::TaskReport(Some(p)) => match node_id {
            Some(node) => {
                if let Some(dispatch) = p.dispatch_id {
                    ws.clear_task_progress(node, dispatch, now);
                }
                Step::Transaction {
                    work: Work::ApplyReport(
                        AgentReportReq {
                            node_id: node,
                            dispatch_id: p.dispatch_id,
                            task_id: p.task_id,
                            task_name: p.task_name,
                            url: p.url,
                            filename: p.filename,
                            file_size: p.file_size,
                            downloaded_bytes: p.downloaded_bytes,
                            elapsed_secs: p.elapsed_secs,
                            avg_speed_mbps: p.avg_speed_mbps,
                            status: p.status,
                            success_chunks: p.success_chunks,
                            failed_chunks: p.failed_chunks,
                            error_msg: p.error_msg,
                        },
                    ),
                    follow_up: FollowUp::Nothing,
                }
            },
            None => Step::Finished,
        },
        ClientMsg::Pong => match node_id {
            Some(node) => Step::Transaction {
                work: Work::Execute(touch_statement(node, now)),
                follow_up: FollowUp::Nothing,
            },
            None => Step::Finished,
        },
        ClientMsg::ComponentRegistered(Some(p)) => {
            ws.bind_node(conn_id, p.node_id);
            Step::Transaction {
                work: Work::Register(register_statements(p, now)),
                follow_up: FollowUp::Nothing,
            }
        },
        ClientMsg::NodeHeartbeat(Some(p)) => Step::Transaction {
            work: Work::Execute(
                load_statement(p.node_id, p.active_tasks, p.bytes_downloaded, now),
            ),
            follow_up: FollowUp::NodeHealth { node_id: p.node_id, active_tasks: p.active_tasks },
        },
        ClientMsg::Malformed => Step::Failed,
        _ => Step::Finished,
    };
    if let Step::Finished = step {
        frontend.notify_update();
    }
    step
}

/// Whether the time matters to a message of the node `node_id`.
fn needs_time<T>(ws: &WsManager<T>, node_id: Option<u128>, msg: &ClientMsg) -> (r: bool)
    ensures
        r == is_timed(ws.realtime(), node_id, *msg),
{
    match msg {
        ClientMsg::NodeStatus(_) => node_id.is_some(),
        ClientMsg::Pong => node_id.is_some(),
        ClientMsg::TaskProgress(Some(_)) => node_id.is_some(),
        ClientMsg::TaskReport(Some(p)) => match node_id {
            Some(node) => p.dispatch_id.is_some() && ws.has_reported(node),
            None => false,
        },
        ClientMsg::ComponentRegistered(Some(_)) => true,
        ClientMsg::NodeHeartbeat(Some(_)) => true,
        _ => false,
    }
}

/// Takes a message in that comes now over the connection `conn_id`, which was opened for the node
/// `node_id`. The front end is notified once the handling is over without a failure.
pub fn handle_client_msg<T, F>(
    ws: &mut WsManager<T>,
    frontend: &mut FrontendWsManager<F>,
    conn_id: u128,
    node_id: Option<u128>,
    msg: ClientMsg,
) -> (r: Step)
    ensures
        final(ws).conns() == conns_after(old(ws).conns(), conn_id, msg),
        final(frontend).conns() == old(frontend).conns(),
        final(frontend).dirty() == notified(old(frontend).dirty(), r),
        exists|now: String|
            #![trigger now@]
            {
                &&& is_timed(old(ws).realtime(), node_id, msg) ==> crate::clock::is_utc_stamp(now@)
                &&& final(ws).realtime() == realtime_after(old(ws).realtime(), node_id, msg, now)
                &&& step_for(r, node_id, msg, now)
            },
{
    let now = if needs_time(ws, node_id, &msg) {
        now_rfc3339()
    } else {
        String::new()
    };
    handle_client_msg_at(ws, frontend, conn_id, node_id, msg, now)
}

/// Takes in that the transaction of a message ended at `now`. Where it was not committed, nothing
/// else happens.
pub fn transaction_done_at<T, F>(
    ws: &mut WsManager<T>,
    frontend: &mut FrontendWsManager<F>,
    follow_up: FollowUp,
    committed: bool,
    now: String,
) -> (r: Step)
    ensures
        final(ws).conns() == old(ws).conns(),
        final(ws).realtime() == realtime_committed(
            old(ws).realtime(),
            follow_up,
            committed,
            now@,
        ),
        final(frontend).conns() == old(frontend).conns(),
        final(frontend).dirty() == notified(old(frontend).dirty(), r),
        step_after(r, follow_up, committed),
{
    if !committed {
        return Step::Failed;
    }
    match follow_up {
        FollowUp::Nothing => {
            frontend.notify_update();
            Step::Finished
        },
        FollowUp::NodeSpeed { node_id, total_speed_bps } => {
            ws.set_node_speed(node_id, total_speed_bps, now);
            frontend.notify_update();
            Step::Finished
        },
        FollowUp::NodeHealth { node_id, active_tasks } => {
            let load_quarters: u8 = if active_tasks < 4 {
                active_tasks as u8
            } else {
                4
            };
            Step::UpdateHealth(
                HealthUpdate { agent_id: node_id, health: "healthy".to_string(), load_quarters },
            )
        },
    }
}

/// Takes in that the transaction of a message has ended. Where it was not committed, nothing else
/// happens.
pub fn transaction_done<T, F>(
    ws: &mut WsManager<T>,
    frontend: &mut FrontendWsManager<F>,
    follow_up: FollowUp,
    committed: bool,
) -> (r: Step)
    ensures
        final(ws).conns() == old(ws).conns(),
        if is_end_timed(follow_up, committed) {
            exists|now: Seq<char>| #[trigger]
                crate::clock::is_utc_stamp(now) && final(ws).realtime() == realtime_committed(
                    old(ws).realtime(),
                    follow_up,
                    committed,
                    now,
                )
        } else {
            final(ws).realtime() == old(ws).realtime()
        },
        final(frontend).conns() == old(frontend).conns(),
        final(frontend).dirty() == notified(old(frontend).dirty(), r),
        step_after(r, follow_up, committed),
{
    let now = match follow_up {
        FollowUp::NodeSpeed { .. } if committed => now_rfc3339(),
        _ => String::new(),
    };
    transaction_done_at(ws, frontend, follow_up, committed, now)
}

/// Takes in that the service registry was updated, with which the handling of a message is over.
pub fn health_updated<F>(frontend: &mut FrontendWsManager<F>) -> (r: Step)
    ensures
        r is Finished,
        final(frontend).conns() == old(frontend).conns(),
        final(frontend).dirty() == notified(old(frontend).dirty(), r),
{
    frontend.notify_update();
    Step::Finished
}

} // verus!
