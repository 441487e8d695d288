//! Laws of the messages from nodes and of the runtime's events.

use vstd::prelude::*;

use crate::client::{ClientMsg, FollowUp, Step, Work};
use crate::comm::RegistryChange;
use crate::ids::NAMESPACE_DNS;
use crate::json::Json;
use crate::manager::NodeConn;
use crate::models::{NodeRealtimeView, RegisterPayload, TaskReportMsg};
use crate::statement::Statement;

verus! {

/// A message fails on its way in exactly if it is malformed, and then changes nothing. The handling
/// of any other is over, or it waits for a transaction.
pub proof fn law_only_malformed_messages_are_refused<T>(
    conns: Map<u128, NodeConn<T>>,
    realtime: Map<u128, NodeRealtimeView>,
    conn_id: u128,
    node_id: Option<u128>,
    msg: ClientMsg,
    step: Step,
    now: String,
)
    requires
        crate::client::step_for(step, node_id, msg, now),
    ensures
        step is Failed <==> msg is Malformed,
        !(msg is Malformed) ==> step is Finished || step is Transaction,
        msg is Malformed ==> {
            &&& crate::client::conns_after(conns, conn_id, msg) == conns
            &&& crate::client::realtime_after(realtime, node_id, msg, now) == realtime
        },
{
}

/// Once a message waits for a transaction, only the failure of that makes its handling fail; after
/// a committed one it is over, or the service registry learns of the node's health.
pub proof fn law_only_transactions_fail(step: Step, follow_up: FollowUp, committed: bool)
    requires
        crate::client::step_after(step, follow_up, committed),
    ensures
        step is Failed <==> !committed,
        committed ==> step is Finished || step is UpdateHealth,
        step is UpdateHealth ==> follow_up is NodeHealth,
{
}

/// Where the time does not matter to a message or to the end of a transaction, it could be any.
pub proof fn law_untimed_messages(
    realtime: Map<u128, NodeRealtimeView>,
    node_id: Option<u128>,
    msg: ClientMsg,
    step: Step,
    now: String,
    later: String,
    follow_up: FollowUp,
    committed: bool,
)
    ensures
        !crate::client::is_timed(realtime, node_id, msg) ==> {
            &&& crate::client::realtime_after(realtime, node_id, msg, now)
                == crate::client::realtime_after(realtime, node_id, msg, later)
            &&& crate::client::step_for(step, node_id, msg, now) == crate::client::step_for(
                step,
                node_id,
                msg,
                later,
            )
        },
        !crate::client::is_end_timed(follow_up, committed)
            ==> crate::client::realtime_committed(realtime, follow_up, committed, now@)
            == realtime,
{
}

/// The last step of a message: `taken` where it needs no transaction, else `ended` where its
/// transaction leads to no update of the service registry, else `updated`.
pub open spec fn last_step(taken: Step, ended: Step, updated: Step) -> Step {
    if !(taken is Transaction) {
        taken
    } else if !(ended is UpdateHealth) {
        ended
    } else {
        updated
    }
}

/// Whether changes are unseen by the front end after the last step of a message.
pub open spec fn dirty_at_end(dirty: bool, taken: Step, ended: Step, updated: Step) -> bool {
    let first = crate::client::notified(dirty, taken);
    if !(taken is Transaction) {
        first
    } else {
        let second = crate::client::notified(first, ended);
        if !(ended is UpdateHealth) {
            second
        } else {
            crate::client::notified(second, updated)
        }
    }
}

/// Every message is handled to its end within three steps. It fails exactly if it is malformed or
/// its transaction is not committed. Where it does not fail, whatever its kind and its payload are,
/// the front end is marked; where it fails, the mark stays as it was.
pub proof fn law_handled_messages_mark_the_front_end(
    dirty: bool,
    node_id: Option<u128>,
    msg: ClientMsg,
    now: String,
    taken: Step,
    committed: bool,
    ended: Step,
    updated: Step,
)
    requires
        crate::client::step_for(taken, node_id, msg, now),
        taken is Transaction ==> crate::client::step_after(ended, taken->follow_up, committed),
        taken is Transaction && ended is UpdateHealth ==> updated is Finished,
    ensures
        ({
            let last = last_step(taken, ended, updated);
            &&& last is Finished || last is Failed
            &&& last is Failed <==> msg is Malformed || (taken is Transaction && !committed)
            &&& dirty_at_end(dirty, taken, ended, updated) == (dirty || last is Finished)
        }),
{
}

/// A failed transaction changes no live state. So a status report whose transaction fails leaves
/// no trace: neither taking it in nor the failure records its speed.
pub proof fn law_failed_status_leaves_no_trace(
    realtime: Map<u128, NodeRealtimeView>,
    node_id: Option<u128>,
    msg: ClientMsg,
    now: String,
    follow_up: FollowUp,
    later: Seq<char>,
)
    requires
        msg is NodeStatus,
    ensures
        crate::client::realtime_after(realtime, node_id, msg, now) == realtime,
        crate::client::realtime_committed(realtime, follow_up, false, later) == realtime,
{
}

/// A status report whose transaction is committed sets the speed of the node, and nothing else.
pub proof fn law_committed_status_sets_the_speed(
    realtime: Map<u128, NodeRealtimeView>,
    node: u128,
    msg: ClientMsg,
    step: Step,
    now: String,
    later: Seq<char>,
)
    requires
        msg is NodeStatus,
        crate::client::step_for(step, Some(node), msg, now),
    ensures
        step matches Step::Transaction { work, follow_up }
            && crate::client::realtime_committed(realtime, follow_up, true, later)
            == crate::manager::with_speed(
            realtime,
            node,
            crate::client::status_of(msg->NodeStatus_0).total_speed_bps,
            later,
        ),
{
}

/// Once the end of a dispatch was reported, its progress is listed no more, whether or not the
/// report's transaction is committed.
pub proof fn law_reported_task_is_gone(
    realtime: Map<u128, NodeRealtimeView>,
    node: u128,
    report: TaskReportMsg,
    dispatch: u128,
    now: String,
    follow_up: FollowUp,
    committed: bool,
    later: Seq<char>,
    step: Step,
)
    requires
        report.dispatch_id == Some(dispatch),
        crate::client::step_for(step, Some(node), ClientMsg::TaskReport(Some(report)), now),
        step == (Step::Transaction { work: step->work, follow_up }),
    ensures
        ({
            let taken_in = crate::client::realtime_after(
                realtime,
                Some(node),
                ClientMsg::TaskReport(Some(report)),
                now,
            );
            let ended = crate::client::realtime_committed(taken_in, follow_up, committed, later);
            &&& ended == taken_in
            &&& !crate::progress::has_dispatch(
                crate::manager::state_of(ended, node).active_tasks,
                dispatch,
            )
        }),
{
    if realtime.contains_key(node) {
        crate::laws::live::law_finished_is_gone(realtime[node].active_tasks, dispatch);
    }
}

/// A registration binds the connection at once, whatever becomes of its transaction; no other
/// message changes a connection.
pub proof fn law_only_registrations_bind<T>(
    conns: Map<u128, NodeConn<T>>,
    conn_id: u128,
    msg: ClientMsg,
    node: RegisterPayload,
)
    ensures
        msg == ClientMsg::ComponentRegistered(Some(node)) && conns.contains_key(conn_id)
            ==> crate::client::conns_after(conns, conn_id, msg)[conn_id].node_id == Some(
            node.node_id,
        ),
        !(msg is ComponentRegistered) ==> crate::client::conns_after(conns, conn_id, msg) == conns,
{
}

/// Over a connection that was opened for no node, status reports, progress, task reports and pongs
/// have no effect but to notify the front end.
pub proof fn law_nodeless_messages_do_nothing<T>(
    conns: Map<u128, NodeConn<T>>,
    realtime: Map<u128, NodeRealtimeView>,
    conn_id: u128,
    msg: ClientMsg,
    step: Step,
    now: String,
)
    requires
        msg is NodeStatus || msg is TaskProgress || msg is TaskReport || msg is Pong,
        crate::client::step_for(step, None, msg, now),
    ensures
        step is Finished,
        crate::client::conns_after(conns, conn_id, msg) == conns,
        crate::client::realtime_after(realtime, None, msg, now) == realtime,
{
}

/// A message whose payload could not be read, a discovery event and an unknown event do nothing but
/// notify the front end. (A status report that could not be read counts as a blank one.)
pub proof fn law_inert_messages<T>(
    conns: Map<u128, NodeConn<T>>,
    realtime: Map<u128, NodeRealtimeView>,
    conn_id: u128,
    node_id: Option<u128>,
    msg: ClientMsg,
    step: Step,
    now: String,
)
    requires
        ({
            ||| msg == ClientMsg::TaskStarted(None)
            ||| msg == ClientMsg::TaskProgress(None)
            ||| msg == ClientMsg::TaskReport(None)
            ||| msg == ClientMsg::ComponentRegistered(None)
            ||| msg == ClientMsg::NodeHeartbeat(None)
            ||| msg is DiscoveryStarted
            ||| msg is DiscoveryResult
            ||| msg is Other
        }),
        crate::client::step_for(step, node_id, msg, now),
    ensures
        step is Finished,
        crate::client::conns_after(conns, conn_id, msg) == conns,
        crate::client::realtime_after(realtime, node_id, msg, now) == realtime,
{
}

/// Whether `word`, in lower case, stands at index `at` of `text`, in letters of either case.
pub open spec fn stands_at(text: Seq<char>, word: Seq<char>, at: int) -> bool {
    &&& 0 <= at <= text.len() - word.len()
    &&& forall|k: int|
        #![trigger word[k]]
        0 <= k < word.len() ==> {
            ||| text[at + k] == word[k]
            ||| 'A' <= text[at + k] <= 'Z' && text[at + k] as int + 32 == word[k] as int
        }
}

/// Whether `word` stands anywhere in `text`.
pub open spec fn mentions(text: Seq<char>, word: Seq<char>) -> bool {
    exists|at: int| #[trigger] stands_at(text, word, at)
}

/// Whether a statement text updates nodes and leaves a node that awaits approval waiting: it
/// assigns the status once, by the clause that keeps a pending one, and does not mention it
/// otherwise.
pub open spec fn keeps_pending(sql: Seq<char>) -> bool {
    exists|before: Seq<char>, after: Seq<char>|
        {
            &&& sql == #[trigger] crate::statement::node_update(before, after)
            &&& !mentions(before, "status"@)
            &&& !mentions(after, "status"@)
        }
}

/// A text without the letter `u` does not mention the status.
proof fn lemma_no_status(text: Seq<char>)
    requires
        forall|i: int| 0 <= i < text.len() ==> #[trigger] text[i] != 'u' && text[i] != 'U',
    ensures
        !mentions(text, "status"@),
{
    reveal_strlit("status");
    let word = "status"@;
    assert forall|at: int| !#[trigger] stands_at(text, word, at) by {
        if stands_at(text, word, at) {
            assert(word[4] == 'u');
            assert(text[at + 4] != 'u');
        }
    }
}

proof fn lemma_updates_keep_pending(node_id: u128, now: Seq<char>)
    ensures
        keeps_pending(crate::statement::touch_node(node_id, now).sql),
        forall|active_tasks: u32, bytes_downloaded: u64|
            keeps_pending(
                (#[trigger] crate::statement::load_node(
                    node_id,
                    active_tasks,
                    bytes_downloaded,
                    now,
                )).sql,
            ),
        forall|p: RegisterPayload|
            keeps_pending((#[trigger] crate::statement::describe_node(p, now)).sql),
{
    reveal_strlit("");
    reveal_strlit(", last_seen=?1 WHERE id=?2");
    reveal_strlit(", last_seen=?1, active_tasks=?2, bytes_downloaded=?3 WHERE id=?4");
    reveal_strlit("hostname=?1, platform=?2, arch=?3, version=?4, ");
    reveal_strlit(", last_seen=?5 WHERE id=?6");
    lemma_no_status(""@);
    lemma_no_status(", last_seen=?1 WHERE id=?2"@);
    lemma_no_status(", last_seen=?1, active_tasks=?2, bytes_downloaded=?3 WHERE id=?4"@);
    lemma_no_status("hostname=?1, platform=?2, arch=?3, version=?4, "@);
    lemma_no_status(", last_seen=?5 WHERE id=?6"@);
}

/// Every update of a node that a message leads to keeps a node waiting that awaits approval.
pub proof fn law_updates_keep_pending(
    step: Step,
    node_id: Option<u128>,
    msg: ClientMsg,
    now: String,
)
    requires
        crate::client::step_for(step, node_id, msg, now),
    ensures
        match step {
            Step::Transaction { work: Work::Execute(s), follow_up } => keeps_pending(s@.sql),
            Step::Transaction { work: Work::Register(r), follow_up } => keeps_pending(
                r.update@.sql,
            ),
            _ => true,
        },
{
    match (msg, node_id) {
        (ClientMsg::NodeHeartbeat(Some(p)), _) => lemma_updates_keep_pending(p.node_id, now@),
        (ClientMsg::ComponentRegistered(Some(p)), _) => lemma_updates_keep_pending(p.node_id, now@),
        (_, Some(node)) => lemma_updates_keep_pending(node, now@),
        _ => {},
    }
}

/// A connection that is opened for a node that awaits approval keeps it waiting.
pub proof fn law_greetings_keep_pending(
    greeting: Option<Statement>,
    node_id: Option<u128>,
    now: Seq<char>,
)
    requires
        crate::session::greets(greeting, node_id, now),
    ensures
        greeting matches Some(s) ==> keeps_pending(s@.sql),
{
    if let Some(node) = node_id {
        lemma_updates_keep_pending(node, now);
    }
}

/// The agent that a change of the service registry concerns.
pub open spec fn agent_of(change: RegistryChange) -> u128 {
    match change {
        RegistryChange::Unregister(id) => id,
        RegistryChange::UpdateHealth(h) => h.agent_id,
        RegistryChange::Register(info) => info.agent_id,
    }
}

/// All events about a component concern the same agent, whatever else they say.
pub proof fn law_one_agent_per_component(
    first: RegistryChange,
    second: RegistryChange,
    first_type: Seq<char>,
    second_type: Seq<char>,
    first_payload: Json,
    second_payload: Json,
    now: Seq<char>,
    later: Seq<char>,
)
    requires
        crate::comm::component_of(first_payload) == crate::comm::component_of(second_payload),
        crate::comm::follows_event(
            first,
            first_type,
            crate::comm::component_of(first_payload),
            crate::ids::name_based_id(
                NAMESPACE_DNS,
                crate::comm::component_of(first_payload),
            ),
            first_payload,
            now,
        ),
        crate::comm::follows_event(
            second,
            second_type,
            crate::comm::component_of(second_payload),
            crate::ids::name_based_id(
                NAMESPACE_DNS,
                crate::comm::component_of(second_payload),
            ),
            second_payload,
            later,
        ),
    ensures
        agent_of(first) == agent_of(second),
{
}

/// Of the events that `pk` subscribes to, the last two take an agent down and the others put it up
/// as healthy.
pub proof fn law_events_up_and_down(
    i: int,
    change: RegistryChange,
    component: Seq<char>,
    agent_id: u128,
    payload: Json,
    now: Seq<char>,
)
    requires
        0 <= i < crate::comm::subscribed_events().len(),
        crate::comm::follows_event(
            change,
            crate::comm::subscribed_events()[i],
            component,
            agent_id,
            payload,
            now,
        ),
    ensures
        i < 3 ==> change is Register,
        i == 3 ==> change is Unregister,
        i == 4 ==> change is UpdateHealth,
{
    reveal_strlit("component.registered");
    reveal_strlit("component.status_changed");
    reveal_strlit("app.status_changed");
    reveal_strlit("component.unregistered");
    reveal_strlit("component.offline");
    assert("component.registered"@[10] == 'r');
    assert("component.status_changed"@[10] == 's');
    assert("app.status_changed"@[0] == 'a');
    assert("component.unregistered"@[10] == 'u');
    assert("component.offline"@[10] == 'o');
    assert("component.unregistered"@[0] == 'c');
    assert("component.offline"@[0] == 'c');
}

} // verus!
