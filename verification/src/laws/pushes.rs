//! Laws of what is pushed to the front end.

use vstd::prelude::*;

use crate::broadcaster::{Asked, CACHE_TTL_NANOS, FULL_INTERVAL_NANOS};
use crate::models::{NodeInfo, NodeRealtimeView};

verus! {

/// Without front end connections a tick does nothing, and changes stay unseen.
pub proof fn law_nobody_connected(
    dirty: bool,
    last_full: u128,
    cache: Option<(u128, Seq<NodeInfo>)>,
    now: u128,
)
    ensures
        crate::broadcaster::asked(false, dirty, last_full, cache, now) is Nothing,
        crate::broadcaster::dirty_after(false, dirty) == dirty,
        crate::broadcaster::last_full_after(false, last_full, now) == last_full,
{
}

/// While the front end is connected, a tick acts exactly if something changed or a second has gone
/// by since a push was last due.
pub proof fn law_when_a_tick_acts(
    dirty: bool,
    last_full: u128,
    cache: Option<(u128, Seq<NodeInfo>)>,
    now: u128,
)
    requires
        now >= last_full,
    ensures
        crate::broadcaster::asked(true, dirty, last_full, cache, now) is Nothing <==> !dirty
            && now - last_full < FULL_INTERVAL_NANOS,
{
}

/// A change is acted on once: the next tick acts only on a newer change or because a push is due.
pub proof fn law_changes_are_seen_once(
    dirty: bool,
    last_full: u128,
    now: u128,
    later_cache: Option<(u128, Seq<NodeInfo>)>,
    later: u128,
)
    ensures
        !crate::broadcaster::dirty_after(true, dirty),
        !crate::broadcaster::full_push_due(
            crate::broadcaster::last_full_after(true, last_full, now),
            later,
        ) ==> crate::broadcaster::asked(
            true,
            crate::broadcaster::dirty_after(true, dirty),
            crate::broadcaster::last_full_after(true, last_full, now),
            later_cache,
            later,
        ) is Nothing,
{
}

/// While the front end is connected, no tick comes a second or more after the last due push
/// without acting, even if an earlier query failed.
pub proof fn law_pushes_go_on(
    last_full: u128,
    cache: Option<(u128, Seq<NodeInfo>)>,
    now: u128,
    later: u128,
    then_dirty: bool,
)
    requires
        later >= crate::broadcaster::last_full_after(true, last_full, now) + FULL_INTERVAL_NANOS,
    ensures
        !(crate::broadcaster::asked(
            true,
            then_dirty,
            crate::broadcaster::last_full_after(true, last_full, now),
            crate::broadcaster::cache_after(cache, None, now),
            later,
        ) is Nothing),
{
}

/// Rows that are pushed without a query were queried less than a second ago.
pub proof fn law_pushed_rows_are_fresh(
    connected: bool,
    dirty: bool,
    last_full: u128,
    cache: Option<(u128, Seq<NodeInfo>)>,
    now: u128,
)
    ensures
        crate::broadcaster::asked(connected, dirty, last_full, cache, now) matches Asked::Push(rows)
            ==> cache matches Some((at, kept)) && kept == rows && (now >= at ==> now - at
            < CACHE_TTL_NANOS),
{
}

/// After a query that brought rows, no tick asks for another query within a second.
pub proof fn law_queries_are_spaced(
    cache: Option<(u128, Seq<NodeInfo>)>,
    rows: Seq<NodeInfo>,
    queried: u128,
    connected: bool,
    dirty: bool,
    last_full: u128,
    now: u128,
)
    requires
        queried <= now < queried + CACHE_TTL_NANOS,
    ensures
        !(crate::broadcaster::asked(
            connected,
            dirty,
            last_full,
            crate::broadcaster::cache_after(cache, Some(rows), queried),
            now,
        ) is Query),
{
}

/// A node whose row holds the hyphenated form of its identifier, as registration stores it, is
/// shown with its own live state.
pub proof fn law_registered_nodes_show_their_state(
    row: NodeInfo,
    node_id: u128,
    realtime: Map<u128, NodeRealtimeView>,
)
    requires
        row.id@ == crate::ids::hyphenated(node_id),
    ensures
        ({
            let shown = crate::broadcaster::shown_node(
                row,
                crate::broadcaster::shown_id(crate::ids::parsed_id(row.id@)),
                realtime,
            );
            &&& shown.node_id == node_id
            &&& shown.total_speed_bps == crate::manager::state_of(
                realtime,
                node_id,
            ).total_speed_bps
            &&& shown.active_tasks == crate::manager::state_of(realtime, node_id).active_tasks
        }),
{
    crate::laws::values::law_written_ids_read_back(node_id);
}

/// A node that has reported nothing is shown without speed and without tasks.
pub proof fn law_silent_nodes_are_idle(
    row: NodeInfo,
    node_id: u128,
    realtime: Map<u128, NodeRealtimeView>,
)
    requires
        !realtime.contains_key(node_id),
    ensures
        crate::broadcaster::shown_node(row, node_id, realtime).total_speed_bps == 0,
        crate::broadcaster::shown_node(row, node_id, realtime).active_tasks.len() == 0,
{
}

/// No row is lost where all can be read, and none is made up.
pub proof fn law_rows_are_kept(rows: Seq<Option<NodeInfo>>)
    ensures
        crate::broadcaster::rows_read(rows).len() <= rows.len(),
        (forall|i: int| 0 <= i < rows.len() ==> (#[trigger] rows[i]) is Some) ==> {
            &&& crate::broadcaster::rows_read(rows).len() == rows.len()
            &&& forall|i: int|
                0 <= i < rows.len() ==> Some(
                    #[trigger] crate::broadcaster::rows_read(rows)[i],
                ) == rows[i]
        },
        forall|r: NodeInfo| #[trigger]
            crate::broadcaster::rows_read(rows).contains(r) ==> rows.contains(Some(r)),
    decreases rows.len(),
{
    if rows.len() > 0 {
        let init = rows.drop_last();
        law_rows_are_kept(init);
        let kept = crate::broadcaster::rows_read(init);
        let all = crate::broadcaster::rows_read(rows);
        assert(forall|i: int| 0 <= i < init.len() ==> init[i] == #[trigger] rows[i]);
        assert forall|r: NodeInfo| #[trigger] all.contains(r) implies rows.contains(Some(r)) by {
            let i = all.index_of(r);
            if i < kept.len() {
                assert(kept[i] == r);
                assert(kept.contains(r));
                let j = init.index_of(Some(r));
                assert(rows[j] == Some(r));
            } else {
                assert(rows[rows.len() - 1] == Some(r));
            }
        }
        if forall|i: int| 0 <= i < rows.len() ==> (#[trigger] rows[i]) is Some {
            assert(rows[rows.len() - 1] is Some);
            assert forall|i: int| 0 <= i < init.len() implies (#[trigger] init[i]) is Some by {
                assert(rows[i] is Some);
            }
            assert forall|i: int| 0 <= i < rows.len() implies Some(#[trigger] all[i])
                == rows[i] by {
                if i < init.len() {
                    assert(all[i] == kept[i]);
                    assert(Some(kept[i]) == init[i]);
                }
            }
        }
    }
}

/// What a tick asks for, and when. It acts while the front end is connected and something changed
/// or at least a second has passed since a push was last due. It then pushes the rows of the last
/// query if that was less than a second ago, and otherwise asks for a query.
pub proof fn law_what_a_tick_asks_for(
    connected: bool,
    dirty: bool,
    last_full: u128,
    cache: Option<(u128, Seq<NodeInfo>)>,
    now: u128,
)
    ensures
        ({
            let asked = crate::broadcaster::asked(connected, dirty, last_full, cache, now);
            let acts = connected && (dirty || now >= last_full + 1_000_000_000);
            let fresh = cache matches Some((at, kept)) && now < at + 1_000_000_000;
            &&& asked is Nothing <==> !acts
            &&& asked is Push <==> acts && fresh
            &&& asked is Query <==> acts && !fresh
            &&& asked matches Asked::Push(rows) ==> cache matches Some((at, kept)) && rows == kept
        }),
{
}

/// What a tick leaves behind. Changes are unseen afterwards only if they were and nobody is
/// connected. The time of the last due push moves to now exactly if the front end is connected and
/// a second or more has passed since.
pub proof fn law_what_a_tick_leaves(connected: bool, dirty: bool, last_full: u128, now: u128)
    ensures
        crate::broadcaster::dirty_after(connected, dirty) <==> dirty && !connected,
        connected && now >= last_full + 1_000_000_000 ==> crate::broadcaster::last_full_after(
            connected,
            last_full,
            now,
        ) == now,
        !connected || now < last_full + 1_000_000_000 ==> crate::broadcaster::last_full_after(
            connected,
            last_full,
            now,
        ) == last_full,
{
}

/// The rows of a query are kept with its time, in place of earlier ones; a query that failed leaves
/// those.
pub proof fn law_queried_rows_are_kept(
    cache: Option<(u128, Seq<NodeInfo>)>,
    outcome: Option<Vec<NodeInfo>>,
    now: u128,
)
    ensures
        ({
            let kept = crate::broadcaster::cache_after(
                cache,
                crate::broadcaster::rows_of(outcome),
                now,
            );
            &&& outcome matches Some(rows) ==> kept == Some((now, rows@))
            &&& outcome is None ==> kept == cache
        }),
{
}

/// Each row is read on its own: one that could be read is kept, one that could not is left out, and
/// the rest does not matter.
pub proof fn law_rows_one_by_one(
    first: Seq<Option<NodeInfo>>,
    second: Seq<Option<NodeInfo>>,
    row: NodeInfo,
)
    ensures
        crate::broadcaster::rows_read(first + second) == crate::broadcaster::rows_read(first)
            + crate::broadcaster::rows_read(second),
        crate::broadcaster::rows_read(seq![Some(row)]) == seq![row],
        crate::broadcaster::rows_read(seq![None::<NodeInfo>]).len() == 0,
    decreases second.len(),
{
    reveal_with_fuel(crate::broadcaster::rows_read, 2);
    assert(seq![Some(row)].drop_last() =~= seq![]);
    assert(seq![None::<NodeInfo>].drop_last() =~= seq![]);
    assert(crate::broadcaster::rows_read(seq![Some(row)]) =~= seq![row]);
    if second.len() == 0 {
        assert(first + second =~= first);
    } else {
        law_rows_one_by_one(first, second.drop_last(), row);
        assert((first + second).drop_last() =~= first + second.drop_last());
        assert(crate::broadcaster::rows_read(first + second) =~= crate::broadcaster::rows_read(
            first,
        ) + crate::broadcaster::rows_read(second));
    }
}

/// A row is looked up under the identifier that it holds, and under the nil one where it holds
/// none.
pub proof fn law_shown_identifiers(parsed: Option<u128>)
    ensures
        parsed matches Some(id) ==> crate::broadcaster::shown_id(parsed) == id,
        parsed is None ==> crate::broadcaster::shown_id(parsed) == 0,
{
}

} // verus!
