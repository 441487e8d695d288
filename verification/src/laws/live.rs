//! Laws of the live states of the nodes.

use vstd::prelude::*;

use crate::client::{ClientMsg, FollowUp};
use crate::models::{NodeRealtimeView, TaskProgressState};

verus! {

/// Whether no node lists a dispatch twice.
pub open spec fn well_formed(realtime: Map<u128, NodeRealtimeView>) -> bool {
    forall|node: u128| #[trigger]
        realtime.contains_key(node) ==> crate::progress::distinct_dispatches(
            realtime[node].active_tasks,
        )
}

/// Whether no node but `node_id` differs between two states.
pub open spec fn others_same(
    before: Map<u128, NodeRealtimeView>,
    after: Map<u128, NodeRealtimeView>,
    node_id: u128,
) -> bool {
    before.remove(node_id) == after.remove(node_id)
}

/// A reported progress is listed, and it is the only entry for its dispatch; the entries for other
/// dispatches stay as they are.
pub proof fn law_progress_is_listed(tasks: Seq<TaskProgressState>, p: TaskProgressState)
    requires
        crate::progress::distinct_dispatches(tasks),
    ensures
        ({
            let after = crate::progress::with_progress(tasks, p);
            &&& after.contains(p)
            &&& crate::progress::distinct_dispatches(after)
            &&& crate::progress::without_dispatch(after, p.dispatch_id)
                == crate::progress::without_dispatch(tasks, p.dispatch_id)
            &&& after.len() == tasks.len() + (if crate::progress::has_dispatch(
                tasks,
                p.dispatch_id,
            ) {
                0int
            } else {
                1
            })
        }),
{
    crate::progress::lemma_position(tasks, p.dispatch_id);
    let at = crate::progress::position(tasks, p.dispatch_id);
    let after = crate::progress::with_progress(tasks, p);
    let keep = crate::progress::is_other(p.dispatch_id);
    assert(after[at] == p);
    if at < tasks.len() {
        let head = tasks.take(at);
        let tail = tasks.skip(at + 1);
        assert(tasks == head + (seq![tasks[at]] + tail));
        assert(after == head + (seq![p] + tail));
        Seq::filter_distributes_over_add(head, seq![tasks[at]] + tail, keep);
        Seq::filter_distributes_over_add(head, seq![p] + tail, keep);
        Seq::filter_distributes_over_add(seq![tasks[at]], tail, keep);
        Seq::filter_distributes_over_add(seq![p], tail, keep);
        lemma_filter_one(tasks[at], keep);
        lemma_filter_one(p, keep);
        assert forall|i: int, j: int| 0 <= i < j < after.len() implies (
        #[trigger] after[i]).dispatch_id != (#[trigger] after[j]).dispatch_id by {
            assert(tasks[i].dispatch_id != tasks[j].dispatch_id);
        }
    } else {
        assert(after.drop_last() == tasks);
        assert(after.last() == p);
        reveal(Seq::filter);
        assert(after.filter(keep) == tasks.filter(keep));
        assert forall|i: int, j: int| 0 <= i < j < after.len() implies (
        #[trigger] after[i]).dispatch_id != (#[trigger] after[j]).dispatch_id by {
            assert(after[i] == tasks[i]);
            if j < tasks.len() {
                assert(after[j] == tasks[j]);
            }
        }
    }
}

proof fn lemma_filter_one(t: TaskProgressState, keep: spec_fn(TaskProgressState) -> bool)
    ensures
        seq![t].filter(keep) == (if keep(t) {
            seq![t]
        } else {
            seq![]
        }),
{
    reveal_with_fuel(Seq::filter, 2);
    assert(seq![t].drop_last() == Seq::<TaskProgressState>::empty());
    assert(Seq::<TaskProgressState>::empty().push(t) == seq![t]);
}

/// Of two reports on the same dispatch the later one counts.
pub proof fn law_last_report_counts(
    tasks: Seq<TaskProgressState>,
    first: TaskProgressState,
    second: TaskProgressState,
)
    requires
        first.dispatch_id == second.dispatch_id,
    ensures
        crate::progress::with_progress(crate::progress::with_progress(tasks, first), second)
            == crate::progress::with_progress(tasks, second),
{
    let id = first.dispatch_id;
    crate::progress::lemma_position(tasks, id);
    let at = crate::progress::position(tasks, id);
    let mid = crate::progress::with_progress(tasks, first);
    crate::progress::lemma_position(mid, id);
    let again = crate::progress::position(mid, id);
    assert(mid[at] == first);
    assert forall|j: int| 0 <= j < at implies (#[trigger] mid[j]).dispatch_id != id by {
        assert(mid[j] == tasks[j]);
    }
    assert(again == at) by {
        assert(crate::progress::has_dispatch(mid, id));
    }
    assert(crate::progress::with_progress(mid, second) =~= crate::progress::with_progress(
        tasks,
        second,
    ));
}

/// A dispatch that is over is listed no more, and dropping it again changes nothing.
pub proof fn law_finished_is_gone(tasks: Seq<TaskProgressState>, dispatch_id: u128)
    ensures
        ({
            let after = crate::progress::without_dispatch(tasks, dispatch_id);
            &&& !crate::progress::has_dispatch(after, dispatch_id)
            &&& crate::progress::without_dispatch(after, dispatch_id) == after
            &&& forall|t: TaskProgressState|
                #![trigger after.contains(t)]
                #![trigger tasks.contains(t)]
                after.contains(t) <==> tasks.contains(t) && t.dispatch_id != dispatch_id
        }),
{
    let keep = crate::progress::is_other(dispatch_id);
    let after = tasks.filter(keep);
    broadcast use vstd::seq_lib::group_filter_ensures;

    assert forall|i: int| 0 <= i < after.len() implies (#[trigger] after[i]).dispatch_id
        != dispatch_id by {
        assert(keep(after[i]));
    }
    lemma_filter_keeps_all(after, keep);
    assert forall|t: TaskProgressState|
        #![trigger after.contains(t)]
        #![trigger tasks.contains(t)]
        after.contains(t) <==> tasks.contains(t) && t.dispatch_id != dispatch_id by {
        if after.contains(t) {
            tasks.lemma_filter_contains_rev(keep, t);
            let i = after.index_of(t);
            assert(keep(after[i]));
        }
        if tasks.contains(t) && t.dispatch_id != dispatch_id {
            let i = tasks.index_of(t);
            assert(keep(tasks[i]));
            tasks.lemma_filter_contains(keep, i);
        }
    }
}

proof fn lemma_filter_keeps_all(
    s: Seq<TaskProgressState>,
    keep: spec_fn(TaskProgressState) -> bool,
)
    requires
        forall|i: int| 0 <= i < s.len() ==> keep(#[trigger] s[i]),
    ensures
        s.filter(keep) == s,
    decreases s.len(),
{
    reveal(Seq::filter);
    if s.len() > 0 {
        let init = s.drop_last();
        assert forall|i: int| 0 <= i < init.len() implies keep(#[trigger] init[i]) by {
            assert(init[i] == s[i]);
        }
        lemma_filter_keeps_all(init, keep);
        assert(keep(s[s.len() - 1]));
        assert(init.push(s.last()) == s);
    }
}

/// Dropping a dispatch undoes the report that listed it.
pub proof fn law_dropping_undoes_listing(tasks: Seq<TaskProgressState>, p: TaskProgressState)
    requires
        !crate::progress::has_dispatch(tasks, p.dispatch_id),
    ensures
        crate::progress::without_dispatch(
            crate::progress::with_progress(tasks, p),
            p.dispatch_id,
        ) == tasks,
{
    crate::progress::lemma_position(tasks, p.dispatch_id);
    let after = crate::progress::with_progress(tasks, p);
    let keep = crate::progress::is_other(p.dispatch_id);
    assert(after.drop_last() == tasks);
    assert forall|i: int| 0 <= i < tasks.len() implies keep(#[trigger] tasks[i]) by {
        assert(tasks[i].dispatch_id != p.dispatch_id);
    }
    lemma_filter_keeps_all(tasks, keep);
    reveal(Seq::filter);
    assert(after.last() == p);
}

proof fn lemma_without_keeps_distinct(tasks: Seq<TaskProgressState>, dispatch_id: u128)
    requires
        crate::progress::distinct_dispatches(tasks),
    ensures
        crate::progress::distinct_dispatches(
            crate::progress::without_dispatch(tasks, dispatch_id),
        ),
    decreases tasks.len(),
{
    reveal(Seq::filter);
    let keep = crate::progress::is_other(dispatch_id);
    if tasks.len() > 0 {
        let init = tasks.drop_last();
        let last = tasks.last();
        assert forall|i: int, j: int| 0 <= i < j < init.len() implies (
        #[trigger] init[i]).dispatch_id != (#[trigger] init[j]).dispatch_id by {
            assert(tasks[i].dispatch_id != tasks[j].dispatch_id);
        }
        lemma_without_keeps_distinct(init, dispatch_id);
        let kept = init.filter(keep);
        if keep(last) {
            let after = kept.push(last);
            assert forall|i: int, j: int| 0 <= i < j < after.len() implies (
            #[trigger] after[i]).dispatch_id != (#[trigger] after[j]).dispatch_id by {
                if j == kept.len() {
                    assert(kept.contains(kept[i]));
                    init.lemma_filter_contains_rev(keep, kept[i]);
                    let k = init.index_of(kept[i]);
                    assert(tasks[k] == kept[i]);
                    assert(tasks[k].dispatch_id != tasks[tasks.len() - 1].dispatch_id);
                }
            }
        }
    }
}

/// No update of the live states makes a node list a dispatch twice.
pub proof fn law_updates_keep_dispatches_distinct(
    realtime: Map<u128, NodeRealtimeView>,
    node_id: u128,
    p: TaskProgressState,
    dispatch_id: u128,
    total_speed_bps: u64,
    now: Seq<char>,
)
    requires
        well_formed(realtime),
    ensures
        well_formed(crate::manager::with_speed(realtime, node_id, total_speed_bps, now)),
        well_formed(crate::manager::with_task_progress(realtime, node_id, p, now)),
        well_formed(crate::manager::without_task_progress(realtime, node_id, dispatch_id, now)),
{
    let tasks = crate::manager::state_of(realtime, node_id).active_tasks;
    assert(crate::progress::distinct_dispatches(tasks));
    law_progress_is_listed(tasks, p);
    lemma_without_keeps_distinct(tasks, dispatch_id);
}

/// No node ever lists a dispatch twice: it holds of a new manager, and whatever the messages and
/// the ends of transactions are, it goes on to hold.
pub proof fn law_dispatches_stay_distinct(
    realtime: Map<u128, NodeRealtimeView>,
    node_id: Option<u128>,
    msg: ClientMsg,
    now: String,
    follow_up: FollowUp,
    committed: bool,
    later: Seq<char>,
)
    requires
        well_formed(realtime),
    ensures
        well_formed(Map::<u128, NodeRealtimeView>::empty()),
        well_formed(crate::client::realtime_after(realtime, node_id, msg, now)),
        well_formed(crate::client::realtime_committed(realtime, follow_up, committed, later)),
{
    match (node_id, msg) {
        (Some(node), ClientMsg::TaskProgress(Some(p))) => {
            let progress = crate::client::progress_state(p, now);
            law_updates_keep_dispatches_distinct(realtime, node, progress, 0, 0, now@);
        },
        (Some(node), ClientMsg::TaskReport(Some(p))) => {
            if let Some(dispatch) = p.dispatch_id {
                let any = arbitrary();
                law_updates_keep_dispatches_distinct(realtime, node, any, dispatch, 0, now@);
            }
        },
        _ => {},
    }
    if let FollowUp::NodeSpeed { node_id, total_speed_bps } = follow_up {
        let any = arbitrary();
        law_updates_keep_dispatches_distinct(realtime, node_id, any, 0, total_speed_bps, later);
    }
}

/// What a node reports changes the live state of no other node.
pub proof fn law_nodes_are_apart(
    realtime: Map<u128, NodeRealtimeView>,
    node_id: u128,
    p: TaskProgressState,
    dispatch_id: u128,
    total_speed_bps: u64,
    now: Seq<char>,
)
    ensures
        others_same(
            realtime,
            crate::manager::with_speed(realtime, node_id, total_speed_bps, now),
            node_id,
        ),
        others_same(
            realtime,
            crate::manager::with_task_progress(realtime, node_id, p, now),
            node_id,
        ),
        others_same(
            realtime,
            crate::manager::without_task_progress(realtime, node_id, dispatch_id, now),
            node_id,
        ),
{
    assert(realtime.remove(node_id) =~= crate::manager::with_speed(
        realtime,
        node_id,
        total_speed_bps,
        now,
    ).remove(node_id));
    assert(realtime.remove(node_id) =~= crate::manager::with_task_progress(
        realtime,
        node_id,
        p,
        now,
    ).remove(node_id));
    assert(realtime.remove(node_id) =~= crate::manager::without_task_progress(
        realtime,
        node_id,
        dispatch_id,
        now,
    ).remove(node_id));
}

/// A node's speed and its tasks are reported apart: neither report touches the other.
pub proof fn law_speed_and_tasks_are_apart(
    realtime: Map<u128, NodeRealtimeView>,
    node_id: u128,
    p: TaskProgressState,
    dispatch_id: u128,
    total_speed_bps: u64,
    now: Seq<char>,
)
    ensures
        ({
            let before = crate::manager::state_of(realtime, node_id);
            let speed = crate::manager::with_speed(realtime, node_id, total_speed_bps, now);
            let listed = crate::manager::with_task_progress(realtime, node_id, p, now);
            let dropped = crate::manager::without_task_progress(
                realtime,
                node_id,
                dispatch_id,
                now,
            );
            &&& crate::manager::state_of(speed, node_id).active_tasks == before.active_tasks
            &&& crate::manager::state_of(listed, node_id).total_speed_bps
                == before.total_speed_bps
            &&& crate::manager::state_of(dropped, node_id).total_speed_bps
                == before.total_speed_bps
        }),
{
}

/// A report makes a node known; the end of a task does not.
pub proof fn law_who_is_known(
    realtime: Map<u128, NodeRealtimeView>,
    node_id: u128,
    p: TaskProgressState,
    dispatch_id: u128,
    total_speed_bps: u64,
    now: Seq<char>,
)
    ensures
        crate::manager::with_speed(realtime, node_id, total_speed_bps, now).dom()
            == realtime.dom().insert(node_id),
        crate::manager::with_task_progress(realtime, node_id, p, now).dom()
            == realtime.dom().insert(node_id),
        crate::manager::without_task_progress(realtime, node_id, dispatch_id, now).dom()
            == realtime.dom(),
{
    assert(crate::manager::without_task_progress(realtime, node_id, dispatch_id, now).dom()
        =~= realtime.dom());
}

/// Once a node reports a speed, its live state shows that speed, whatever it was before, stamped
/// with the time of the report; its tasks stay as they are.
pub proof fn law_reported_speed_is_shown(
    realtime: Map<u128, NodeRealtimeView>,
    node_id: u128,
    total_speed_bps: u64,
    now: Seq<char>,
)
    ensures
        ({
            let after = crate::manager::with_speed(realtime, node_id, total_speed_bps, now);
            &&& after.contains_key(node_id)
            &&& after[node_id].total_speed_bps == total_speed_bps
            &&& after[node_id].updated_at == now
            &&& realtime.contains_key(node_id) ==> after[node_id].active_tasks
                == realtime[node_id].active_tasks
            &&& !realtime.contains_key(node_id) ==> after[node_id].active_tasks.len() == 0
        }),
{
}

/// Of two reported speeds the later one counts, be it higher or lower.
pub proof fn law_last_speed_counts(
    realtime: Map<u128, NodeRealtimeView>,
    node_id: u128,
    first: u64,
    second: u64,
    now: Seq<char>,
    later: Seq<char>,
)
    ensures
        crate::manager::with_speed(
            crate::manager::with_speed(realtime, node_id, first, now),
            node_id,
            second,
            later,
        ) == crate::manager::with_speed(realtime, node_id, second, later),
{
    assert(crate::manager::with_speed(
        crate::manager::with_speed(realtime, node_id, first, now),
        node_id,
        second,
        later,
    ) =~= crate::manager::with_speed(realtime, node_id, second, later));
}

/// A committed status sets the speed that it tells of, stamped with the time of the commit; nothing
/// else that ends changes a live state.
pub proof fn law_committed_speed_is_shown(
    realtime: Map<u128, NodeRealtimeView>,
    follow_up: FollowUp,
    committed: bool,
    now: Seq<char>,
)
    ensures
        ({
            let after = crate::client::realtime_committed(realtime, follow_up, committed, now);
            match follow_up {
                FollowUp::NodeSpeed { node_id, total_speed_bps } if committed => {
                    &&& after.contains_key(node_id)
                    &&& after[node_id].total_speed_bps == total_speed_bps
                    &&& after[node_id].updated_at == now
                    &&& after.remove(node_id) == realtime.remove(node_id)
                },
                _ => after == realtime,
            }
        }),
{
    if let FollowUp::NodeSpeed { node_id, total_speed_bps } = follow_up {
        assert(crate::manager::with_speed(realtime, node_id, total_speed_bps, now).remove(node_id)
            =~= realtime.remove(node_id));
    }
}

/// A report on a dispatch that is listed takes the place of its entry; one on a dispatch that is
/// not listed comes last. All other entries stay where they are, as they are.
pub proof fn law_progress_keeps_its_place(tasks: Seq<TaskProgressState>, p: TaskProgressState)
    requires
        crate::progress::distinct_dispatches(tasks),
    ensures
        ({
            let after = crate::progress::with_progress(tasks, p);
            &&& forall|i: int|
                0 <= i < tasks.len() ==> #[trigger] after[i] == (if tasks[i].dispatch_id
                    == p.dispatch_id {
                    p
                } else {
                    tasks[i]
                })
            &&& (exists|i: int|
                0 <= i < tasks.len() && (#[trigger] tasks[i]).dispatch_id == p.dispatch_id)
                ==> after.len() == tasks.len()
            &&& (forall|i: int|
                0 <= i < tasks.len() ==> (#[trigger] tasks[i]).dispatch_id != p.dispatch_id)
                ==> after == tasks.push(p)
        }),
{
    crate::progress::lemma_position(tasks, p.dispatch_id);
    let at = crate::progress::position(tasks, p.dispatch_id);
    let after = crate::progress::with_progress(tasks, p);
    assert forall|i: int| 0 <= i < tasks.len() implies #[trigger] after[i] == (if tasks[i].dispatch_id
        == p.dispatch_id {
        p
    } else {
        tasks[i]
    }) by {
        if at < tasks.len() && i != at {
            if i < at {
                assert(tasks[i].dispatch_id != tasks[at].dispatch_id);
            } else {
                assert(tasks[at].dispatch_id != tasks[i].dispatch_id);
            }
        }
    }
}

/// Dropping a dispatch looks at each entry on its own: it goes exactly if it is for the dispatch,
/// and what stays keeps its order.
pub proof fn law_dropping_entry_by_entry(
    a: Seq<TaskProgressState>,
    b: Seq<TaskProgressState>,
    t: TaskProgressState,
    dispatch_id: u128,
)
    ensures
        crate::progress::without_dispatch(a + b, dispatch_id)
            == crate::progress::without_dispatch(a, dispatch_id)
            + crate::progress::without_dispatch(b, dispatch_id),
        t.dispatch_id == dispatch_id ==> crate::progress::without_dispatch(
            seq![t],
            dispatch_id,
        ).len() == 0,
        t.dispatch_id != dispatch_id ==> crate::progress::without_dispatch(seq![t], dispatch_id)
            == seq![t],
{
    let keep = crate::progress::is_other(dispatch_id);
    Seq::filter_distributes_over_add(a, b, keep);
    lemma_filter_one(t, keep);
}

/// Progress that is taken in and a dispatch that is dropped change the list of the node in just
/// that way, and stamp its state. For a node without a live state there is nothing to drop.
pub proof fn law_task_updates(
    realtime: Map<u128, NodeRealtimeView>,
    node_id: u128,
    p: TaskProgressState,
    dispatch_id: u128,
    now: Seq<char>,
)
    ensures
        ({
            let listed = crate::manager::with_task_progress(realtime, node_id, p, now);
            &&& listed.contains_key(node_id)
            &&& listed[node_id].updated_at == now
            &&& realtime.contains_key(node_id) ==> listed[node_id].active_tasks
                == crate::progress::with_progress(realtime[node_id].active_tasks, p)
            &&& !realtime.contains_key(node_id) ==> listed[node_id].active_tasks == seq![p]
        }),
        ({
            let dropped = crate::manager::without_task_progress(
                realtime,
                node_id,
                dispatch_id,
                now,
            );
            &&& realtime.contains_key(node_id) ==> {
                &&& dropped.contains_key(node_id)
                &&& dropped[node_id].updated_at == now
                &&& dropped[node_id].active_tasks == crate::progress::without_dispatch(
                    realtime[node_id].active_tasks,
                    dispatch_id,
                )
            }
            &&& !realtime.contains_key(node_id) ==> dropped == realtime
        }),
{
    assert(Seq::<TaskProgressState>::empty().push(p) =~= seq![p]);
}

/// The report on the end of a dispatch drops the dispatch that it names, of its node alone; without
/// a dispatch it changes no live state, and neither does any message but reports and progress.
pub proof fn law_live_states_change_by_tasks_only(
    realtime: Map<u128, NodeRealtimeView>,
    node_id: Option<u128>,
    msg: ClientMsg,
    now: String,
)
    ensures
        ({
            let after = crate::client::realtime_after(realtime, node_id, msg, now);
            match (node_id, msg) {
                (Some(node), ClientMsg::TaskProgress(Some(p))) => others_same(
                    realtime,
                    after,
                    node,
                ),
                (Some(node), ClientMsg::TaskReport(Some(p))) => match p.dispatch_id {
                    Some(dispatch) => after == crate::manager::without_task_progress(
                        realtime,
                        node,
                        dispatch,
                        now@,
                    ),
                    None => after == realtime,
                },
                _ => after == realtime,
            }
        }),
{
    if let (Some(node), ClientMsg::TaskProgress(Some(p))) = (node_id, msg) {
        let progress = crate::client::progress_state(p, now);
        law_nodes_are_apart(realtime, node, progress, 0, 0, now@);
    }
}

/// A node that has reported has the state that is kept for it; any other has no speed, no tasks and
/// no time.
pub proof fn law_states_of_nodes(realtime: Map<u128, NodeRealtimeView>, node_id: u128)
    ensures
        realtime.contains_key(node_id) ==> crate::manager::state_of(realtime, node_id)
            == realtime[node_id],
        !realtime.contains_key(node_id) ==> {
            let state = crate::manager::state_of(realtime, node_id);
            &&& state.total_speed_bps == 0
            &&& state.active_tasks.len() == 0
            &&& state.updated_at.len() == 0
        },
{
}

} // verus!
