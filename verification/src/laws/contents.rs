//! Laws of what is passed on: which field of a message, a row or an event ends up where.

use vstd::prelude::*;

use crate::broadcaster::{FrontendNodeState, Tick};
use crate::client::{ClientMsg, FollowUp, Step, Work};
use crate::models::{
    HeartbeatPayload, NodeInfo, NodeRealtime, NodeRealtimeView, RegisterPayload,
    ServiceChangedEvent, StatusPayload, TaskProgressMsg, TaskReportMsg, TaskStartedPayload,
};
use crate::notify::{OutgoingEvent, ServiceChangedPayload, WsMessage};
use crate::session::{SendEvent, SendStep};
use crate::statement::{SqlArg, SqlValue, Statement, StatementView};

verus! {

/// Whatever a report of a node holds, the scheduler is handed the same, field by field, as the
/// node's.
pub proof fn law_reports_reach_the_scheduler(
    step: Step,
    node: u128,
    p: TaskReportMsg,
    now: String,
)
    requires
        crate::client::step_for(step, Some(node), ClientMsg::TaskReport(Some(p)), now),
    ensures
        step matches Step::Transaction { work: Work::ApplyReport(req), follow_up } && {
            &&& follow_up is Nothing
            &&& req.node_id == node
            &&& req.dispatch_id == p.dispatch_id
            &&& req.task_id == p.task_id
            &&& req.task_name == p.task_name
            &&& req.url == p.url
            &&& req.filename == p.filename
            &&& req.file_size == p.file_size
            &&& req.downloaded_bytes == p.downloaded_bytes
            &&& req.elapsed_secs == p.elapsed_secs
            &&& req.avg_speed_mbps == p.avg_speed_mbps
            &&& req.status == p.status
            &&& req.success_chunks == p.success_chunks
            &&& req.failed_chunks == p.failed_chunks
            &&& req.error_msg == p.error_msg
        },
{
}

/// Two reports are handed on alike only if they are alike and come from the same node.
pub proof fn law_reports_are_told_apart(
    step: Step,
    first: u128,
    second: u128,
    p: TaskReportMsg,
    q: TaskReportMsg,
    now: String,
    later: String,
)
    requires
        crate::client::step_for(step, Some(first), ClientMsg::TaskReport(Some(p)), now),
        crate::client::step_for(step, Some(second), ClientMsg::TaskReport(Some(q)), later),
    ensures
        first == second,
        p == q,
{
}

/// The start of a task marks the dispatch that it names, over any connection.
pub proof fn law_started_tasks_are_marked(
    step: Step,
    node_id: Option<u128>,
    p: TaskStartedPayload,
    now: String,
)
    requires
        crate::client::step_for(step, node_id, ClientMsg::TaskStarted(Some(p)), now),
    ensures
        step matches Step::Transaction { work: Work::MarkRunning(dispatch), follow_up } && dispatch
            == p.dispatch_id && follow_up is Nothing,
{
}

/// The progress of a task is listed for its node with the numbers that were sent, stamped with the
/// time of the message. It is the only entry for its dispatch that is not an older duplicate, and
/// no other node is touched.
pub proof fn law_progress_is_recorded(
    realtime: Map<u128, NodeRealtimeView>,
    node: u128,
    p: TaskProgressMsg,
    now: String,
)
    ensures
        ({
            let after = crate::client::realtime_after(
                realtime,
                Some(node),
                ClientMsg::TaskProgress(Some(p)),
                now,
            );
            &&& after.contains_key(node)
            &&& after[node].updated_at == now@
            &&& after.remove(node) == realtime.remove(node)
            &&& exists|i: int|
                #![trigger after[node].active_tasks[i]]
                {
                    let t = after[node].active_tasks[i];
                    &&& 0 <= i < after[node].active_tasks.len()
                    &&& t.dispatch_id == p.dispatch_id
                    &&& t.task_name == p.task_name
                    &&& t.percent == p.percent
                    &&& t.downloaded_bytes == p.downloaded_bytes
                    &&& t.total_size == p.total_size
                    &&& t.speed_bps == p.speed_bps
                    &&& t.active_connections == p.active_connections
                    &&& t.elapsed_secs == p.elapsed_secs
                    &&& t.updated_at == now
                    &&& forall|j: int|
                        0 <= j < i ==> (#[trigger] after[node].active_tasks[j]).dispatch_id
                            != p.dispatch_id
                }
        }),
{
    let state = crate::client::progress_state(p, now);
    let tasks = crate::manager::state_of(realtime, node).active_tasks;
    let after = crate::client::realtime_after(
        realtime,
        Some(node),
        ClientMsg::TaskProgress(Some(p)),
        now,
    );
    crate::progress::lemma_position(tasks, p.dispatch_id);
    let at = crate::progress::position(tasks, p.dispatch_id);
    assert(after[node].active_tasks[at] == state);
    assert(after.remove(node) =~= realtime.remove(node));
    assert forall|j: int| 0 <= j < at implies (
    #[trigger] after[node].active_tasks[j]).dispatch_id != p.dispatch_id by {
        assert(after[node].active_tasks[j] == tasks[j]);
    }
}

/// A status report notes in the row of its node the time, the number of tasks and the bytes that
/// it tells of; its speed is recorded afterwards. One that could not be read counts as all zeros.
pub proof fn law_status_is_stored(
    step: Step,
    node: u128,
    p: Option<StatusPayload>,
    now: String,
)
    requires
        crate::client::step_for(step, Some(node), ClientMsg::NodeStatus(p), now),
    ensures
        step matches Step::Transaction { work: Work::Execute(s), follow_up } && {
            let (tasks, bytes, speed) = match p {
                Some(p) => (p.active_tasks, p.bytes_downloaded, p.total_speed_bps),
                None => (0u32, 0u64, 0u64),
            };
            &&& is_load_update(s@, node, tasks, bytes, now@)
            &&& follow_up == (FollowUp::NodeSpeed { node_id: node, total_speed_bps: speed })
        },
{
    lemma_load_text();
}

/// A heartbeat notes in the row of the node that it names the time, the number of tasks and the
/// bytes that it tells of; the registry learns of the same node and number afterwards.
pub proof fn law_heartbeat_is_stored(
    step: Step,
    node_id: Option<u128>,
    p: HeartbeatPayload,
    now: String,
)
    requires
        crate::client::step_for(step, node_id, ClientMsg::NodeHeartbeat(Some(p)), now),
    ensures
        step matches Step::Transaction { work: Work::Execute(s), follow_up } && {
            &&& is_load_update(s@, p.node_id, p.active_tasks, p.bytes_downloaded, now@)
            &&& follow_up == (FollowUp::NodeHealth {
                node_id: p.node_id,
                active_tasks: p.active_tasks,
            })
        },
{
    lemma_load_text();
}

/// A pong notes the time in the row of its node, and nothing else.
pub proof fn law_pong_is_stored(step: Step, node: u128, now: String)
    requires
        crate::client::step_for(step, Some(node), ClientMsg::Pong, now),
    ensures
        step matches Step::Transaction { work: Work::Execute(s), follow_up } && is_seen_update(
            s@,
            node,
            now@,
        ) && follow_up is Nothing,
{
    lemma_seen_text();
}

/// A connection that is opened for a node notes the time in the row of that node; one that is
/// opened for none notes nothing.
pub proof fn law_greeting_is_stored(
    greeting: Option<Statement>,
    node_id: Option<u128>,
    now: Seq<char>,
)
    requires
        crate::session::greets(greeting, node_id, now),
    ensures
        match node_id {
            Some(node) => greeting matches Some(s) && is_seen_update(s@, node, now),
            None => greeting is None,
        },
{
    lemma_seen_text();
}

/// A registration counts the rows of the node that it names. A known node is described anew and a
/// new one is added, each with what was sent and the time; the row is that of the node.
pub proof fn law_registration_is_stored(
    step: Step,
    node_id: Option<u128>,
    p: RegisterPayload,
    now: String,
)
    requires
        crate::client::step_for(step, node_id, ClientMsg::ComponentRegistered(Some(p)), now),
    ensures
        step matches Step::Transaction { work: Work::Register(r), follow_up } && {
            let id = SqlArg::Text(crate::ids::hyphenated(p.node_id));
            let (hostname, platform) = (SqlArg::Text(p.hostname@), SqlArg::Text(p.platform@));
            let (arch, version) = (SqlArg::Text(p.arch@), SqlArg::Text(p.version@));
            let at = SqlArg::Text(now@);
            &&& follow_up is Nothing
            &&& r.probe@.sql == "SELECT COUNT(*) FROM nodes WHERE id = ?1"@
            &&& r.probe@.params == seq![id]
            &&& r.update@.sql
                == "UPDATE nodes SET hostname=?1, platform=?2, arch=?3, version=?4, status=CASE WHEN status='pending' THEN 'pending' ELSE 'online' END, last_seen=?5 WHERE id=?6"@
            &&& r.update@.params == seq![hostname, platform, arch, version, at, id]
            &&& r.insert@.sql
                == "INSERT INTO nodes VALUES (?1,?2,?3,?4,?5,'online',?6,?6,'[]',0,0,NULL)"@
            &&& r.insert@.params == seq![id, hostname, platform, arch, version, at]
        },
{
    reveal_strlit("UPDATE nodes SET ");
    reveal_strlit("hostname=?1, platform=?2, arch=?3, version=?4, ");
    reveal_strlit("status=CASE WHEN status='pending' THEN 'pending' ELSE 'online' END");
    reveal_strlit(", last_seen=?5 WHERE id=?6");
    reveal_strlit(
        "UPDATE nodes SET hostname=?1, platform=?2, arch=?3, version=?4, status=CASE WHEN status='pending' THEN 'pending' ELSE 'online' END, last_seen=?5 WHERE id=?6",
    );
    assert(crate::statement::node_update(
        "hostname=?1, platform=?2, arch=?3, version=?4, "@,
        ", last_seen=?5 WHERE id=?6"@,
    )
        =~= "UPDATE nodes SET hostname=?1, platform=?2, arch=?3, version=?4, status=CASE WHEN status='pending' THEN 'pending' ELSE 'online' END, last_seen=?5 WHERE id=?6"@);
}

/// A node is known exactly if its rows could be counted and there is one.
pub proof fn law_known_nodes_have_rows(count: Option<i64>)
    ensures
        crate::statement::is_known(count) <==> count is Some && count->0 >= 1,
{
}

/// Whether a statement notes in the row of a node that it was seen at `now`.
pub open spec fn is_seen_update(s: StatementView, node: u128, now: Seq<char>) -> bool {
    &&& s.sql
        == "UPDATE nodes SET status=CASE WHEN status='pending' THEN 'pending' ELSE 'online' END, last_seen=?1 WHERE id=?2"@
    &&& s.params == seq![SqlArg::Text(now), SqlArg::Text(crate::ids::hyphenated(node))]
}

/// Whether a statement notes in the row of a node that it was seen at `now` with so many tasks and
/// bytes; the bytes are stored modulo 2^64.
pub open spec fn is_load_update(
    s: StatementView,
    node: u128,
    tasks: u32,
    bytes: u64,
    now: Seq<char>,
) -> bool {
    &&& s.sql
        == "UPDATE nodes SET status=CASE WHEN status='pending' THEN 'pending' ELSE 'online' END, last_seen=?1, active_tasks=?2, bytes_downloaded=?3 WHERE id=?4"@
    &&& s.params.len() == 4
    &&& s.params[0] == SqlArg::Text(now)
    &&& s.params[1] matches SqlArg::Integer(n) && n == tasks
    &&& s.params[2] matches SqlArg::Integer(n) && (n == bytes || n + 0x1_0000_0000_0000_0000
        == bytes)
    &&& s.params[3] == SqlArg::Text(crate::ids::hyphenated(node))
}

proof fn lemma_seen_text()
    ensures
        crate::statement::node_update(""@, ", last_seen=?1 WHERE id=?2"@)
            == "UPDATE nodes SET status=CASE WHEN status='pending' THEN 'pending' ELSE 'online' END, last_seen=?1 WHERE id=?2"@,
{
    reveal_strlit("");
    reveal_strlit("UPDATE nodes SET ");
    reveal_strlit("status=CASE WHEN status='pending' THEN 'pending' ELSE 'online' END");
    reveal_strlit(", last_seen=?1 WHERE id=?2");
    reveal_strlit(
        "UPDATE nodes SET status=CASE WHEN status='pending' THEN 'pending' ELSE 'online' END, last_seen=?1 WHERE id=?2",
    );
}

proof fn lemma_load_text()
    ensures
        crate::statement::node_update(
            ""@,
            ", last_seen=?1, active_tasks=?2, bytes_downloaded=?3 WHERE id=?4"@,
        )
            == "UPDATE nodes SET status=CASE WHEN status='pending' THEN 'pending' ELSE 'online' END, last_seen=?1, active_tasks=?2, bytes_downloaded=?3 WHERE id=?4"@,
{
    reveal_strlit("");
    reveal_strlit("UPDATE nodes SET ");
    reveal_strlit("status=CASE WHEN status='pending' THEN 'pending' ELSE 'online' END");
    reveal_strlit(", last_seen=?1, active_tasks=?2, bytes_downloaded=?3 WHERE id=?4");
    reveal_strlit(
        "UPDATE nodes SET status=CASE WHEN status='pending' THEN 'pending' ELSE 'online' END, last_seen=?1, active_tasks=?2, bytes_downloaded=?3 WHERE id=?4",
    );
}

/// After the transaction of a heartbeat the registry learns that the node of the heartbeat is
/// healthy, with a quarter of a full load for each task and at most a full one.
pub proof fn law_health_is_passed_on(step: Step, node: u128, active_tasks: u32)
    requires
        crate::client::step_after(
            step,
            FollowUp::NodeHealth { node_id: node, active_tasks },
            true,
        ),
    ensures
        step matches Step::UpdateHealth(h) && {
            &&& h.agent_id == node
            &&& h.health@ == "healthy"@
            &&& active_tasks <= 4 ==> h.load_quarters == active_tasks
            &&& active_tasks > 4 ==> h.load_quarters == 4
        },
{
}

/// Each event type stands for one kind of message; all others for none that is handled.
pub proof fn law_kinds_of_events(event_type: Seq<char>)
    ensures
        ({
            let kind = crate::client::kind_of(event_type);
            &&& kind is NodeStatus <==> event_type == "node.status"@
            &&& kind is TaskStarted <==> event_type == "task.started"@
            &&& kind is TaskProgress <==> event_type == "task.progress"@
            &&& kind is TaskReport <==> event_type == "task.completed"@ || event_type
                == "task.failed"@
            &&& kind is Pong <==> event_type == "system.pong"@
            &&& kind is ComponentRegistered <==> event_type == "component.registered"@
            &&& kind is DiscoveryStarted <==> event_type == "discovery.started"@
            &&& kind is DiscoveryResult <==> event_type == "discovery.result"@
            &&& kind is NodeHeartbeat <==> event_type == "node.heartbeat"@
        }),
{
    reveal_strlit("node.status");
    reveal_strlit("task.started");
    reveal_strlit("task.progress");
    reveal_strlit("task.completed");
    reveal_strlit("task.failed");
    reveal_strlit("system.pong");
    reveal_strlit("component.registered");
    reveal_strlit("discovery.started");
    reveal_strlit("discovery.result");
    reveal_strlit("node.heartbeat");
    let t = event_type;
    assert(t == "node.status"@ ==> t.len() == 11 && t[0] == 'n');
    assert(t == "task.started"@ ==> t.len() == 12);
    assert(t == "task.progress"@ ==> t.len() == 13);
    assert(t == "task.completed"@ ==> t.len() == 14 && t[0] == 't');
    assert(t == "task.failed"@ ==> t.len() == 11 && t[0] == 't');
    assert(t == "system.pong"@ ==> t.len() == 11 && t[0] == 's');
    assert(t == "component.registered"@ ==> t.len() == 20);
    assert(t == "discovery.started"@ ==> t.len() == 17);
    assert(t == "discovery.result"@ ==> t.len() == 16);
    assert(t == "node.heartbeat"@ ==> t.len() == 14 && t[0] == 'n');
}

/// A change of the registry is announced with what the event says: who, what, where and how well.
/// A service counts as healthy exactly if its health is `healthy`.
pub proof fn law_announced_changes(p: ServiceChangedPayload, event: ServiceChangedEvent)
    requires
        crate::notify::announces(p, event),
    ensures
        p.service_name == event.agent_id,
        p.action == event.change_type,
        p.address == event.host,
        p.port == event.port,
        p.healthy <==> event.health@ == "healthy"@,
        p.agent_type == event.agent_type,
        p.capabilities@ == event.capabilities@,
        p.region == event.region,
        p.health == event.health,
        p.load == event.load,
{
}

/// A bare message comes from `pk`, under its event, with an empty payload.
pub proof fn law_bare_messages(message: WsMessage, event: OutgoingEvent)
    requires
        crate::notify::is_bare(message, event),
    ensures
        message.event == event,
        message.source@ == "pk"@,
        message.payload is Empty,
{
}

/// A node is shown with the host name, the platform, the version, the status and the time of its
/// row, whatever its live state is, and under the identifier that was read from the row.
pub proof fn law_shown_nodes_keep_their_row(
    row: NodeInfo,
    node_id: u128,
    realtime: Map<u128, NodeRealtimeView>,
)
    ensures
        ({
            let shown = crate::broadcaster::shown_node(row, node_id, realtime);
            &&& shown.node_id == node_id
            &&& shown.hostname == row.hostname@
            &&& shown.platform == row.platform@
            &&& shown.version == row.version@
            &&& shown.status == row.status@
            &&& shown.last_seen == row.last_seen@
            &&& realtime.contains_key(node_id) ==> {
                &&& shown.total_speed_bps == realtime[node_id].total_speed_bps
                &&& shown.active_tasks == realtime[node_id].active_tasks
            }
            &&& !realtime.contains_key(node_id) ==> {
                &&& shown.total_speed_bps == 0
                &&& shown.active_tasks.len() == 0
            }
        }),
{
}

/// A push shows one node for each row, in the order of the rows: the text of each field is that of
/// the row, and the live state is that of the identifier that the row holds. A row whose identifier
/// cannot be read is shown under the nil one.
pub proof fn law_pushes_show_the_rows(
    shown: Seq<FrontendNodeState>,
    rows: Seq<NodeInfo>,
    realtime: Map<u128, NodeRealtimeView>,
)
    requires
        crate::broadcaster::shows_all(shown, rows, realtime),
    ensures
        shown.len() == rows.len(),
        forall|i: int|
            0 <= i < rows.len() ==> {
                let row = rows[i];
                let node = #[trigger] shown[i];
                &&& crate::ids::parsed_id(row.id@) is Some ==> Some(node.node_id)
                    == crate::ids::parsed_id(row.id@)
                &&& crate::ids::parsed_id(row.id@) is None ==> node.node_id == 0
                &&& node.hostname@ == row.hostname@
                &&& node.platform@ == row.platform@
                &&& node.version@ == row.version@
                &&& node.status@ == row.status@
                &&& node.last_seen@ == row.last_seen@
                &&& realtime.contains_key(node.node_id) ==> {
                    &&& node.total_speed_bps == realtime[node.node_id].total_speed_bps
                    &&& node.active_tasks@ == realtime[node.node_id].active_tasks
                }
                &&& !realtime.contains_key(node.node_id) ==> {
                    &&& node.total_speed_bps == 0
                    &&& node.active_tasks@.len() == 0
                }
            },
{
    assert forall|i: int| 0 <= i < rows.len() implies {
        let row = rows[i];
        let node = #[trigger] shown[i];
        &&& crate::ids::parsed_id(row.id@) is Some ==> Some(node.node_id) == crate::ids::parsed_id(
            row.id@,
        )
        &&& crate::ids::parsed_id(row.id@) is None ==> node.node_id == 0
        &&& node.hostname@ == row.hostname@
        &&& node.platform@ == row.platform@
        &&& node.version@ == row.version@
        &&& node.status@ == row.status@
        &&& node.last_seen@ == row.last_seen@
        &&& realtime.contains_key(node.node_id) ==> {
            &&& node.total_speed_bps == realtime[node.node_id].total_speed_bps
            &&& node.active_tasks@ == realtime[node.node_id].active_tasks
        }
        &&& !realtime.contains_key(node.node_id) ==> {
            &&& node.total_speed_bps == 0
            &&& node.active_tasks@.len() == 0
        }
    } by {
        let node = shown[i];
        assert(node@.node_id == node.node_id);
    }
}

/// The sending side sends a ping when one is due, sends what is queued, goes on while sending works
/// and stops once it does not.
pub proof fn law_sending<M>(event: SendEvent<M>)
    ensures
        ({
            let step = crate::session::send_step_for(event);
            &&& step is SendPing <==> event is PingDue
            &&& event matches SendEvent::Queued(m) ==> step == SendStep::Send(m)
            &&& step is Send <==> event is Queued
            &&& step is Stop <==> event is Sent && !event->ok
            &&& step is Wait <==> event is Sent && event->ok
        }),
{
}

/// What the models of values hold is what the values hold.
pub proof fn law_models_leave_nothing_out(
    live: NodeRealtime,
    statement: Statement,
    node: FrontendNodeState,
    rows: Vec<NodeInfo>,
)
    ensures
        live@.total_speed_bps == live.total_speed_bps,
        live@.active_tasks == live.active_tasks@,
        live@.updated_at == live.updated_at@,
        statement@.sql == statement.sql@,
        statement@.params.len() == statement.params@.len(),
        forall|i: int|
            0 <= i < statement.params@.len() ==> match #[trigger] statement.params@[i] {
                SqlValue::Text(s) => statement@.params[i] == SqlArg::Text(s@),
                SqlValue::Integer(n) => statement@.params[i] == SqlArg::Integer(n),
            },
        node@.node_id == node.node_id,
        node@.hostname == node.hostname@,
        node@.platform == node.platform@,
        node@.version == node.version@,
        node@.status == node.status@,
        node@.total_speed_bps == node.total_speed_bps,
        node@.active_tasks == node.active_tasks@,
        node@.last_seen == node.last_seen@,
        Tick::Skip@ is Nothing,
        Tick::Query@ is Query,
        Tick::Push(rows)@ is Push,
        Tick::Push(rows)@->Push_0 == rows@,
{
}

/// A map of live states is modelled node by node.
pub proof fn law_live_states_are_modelled(m: Map<u128, NodeRealtime>, node: u128)
    ensures
        ({
            let live = crate::manager::realtime_view(m);
            &&& live.contains_key(node) <==> m.contains_key(node)
            &&& m.contains_key(node) ==> {
                &&& live[node].total_speed_bps == m[node].total_speed_bps
                &&& live[node].active_tasks == m[node].active_tasks@
                &&& live[node].updated_at == m[node].updated_at@
            }
        }),
{
}

/// A message that was encoded is sent as it is; one that was not is sent as the empty text.
pub proof fn law_sent_texts(encoded: Option<String>)
    ensures
        encoded is Some ==> crate::manager::text_or_empty(encoded) == encoded->0@,
        encoded is None ==> crate::manager::text_or_empty(encoded).len() == 0,
{
}

} // verus!
