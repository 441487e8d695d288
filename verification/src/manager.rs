//! Connections of nodes and what the nodes report live.

use std::collections::HashMap;

use vstd::prelude::*;

use crate::clock::now_rfc3339;
use crate::ids::fresh_id;
use crate::models::{NodeRealtime, NodeRealtimeView, TaskProgressState};
use crate::progress::{drop_dispatch, put_progress};

verus! {

broadcast use vstd::std_specs::hash::group_hash_axioms;

/// The connection of a node: where messages for it go, and the node it belongs to, if that is
/// known.
#[derive(Debug, PartialEq)]
pub struct NodeConn<T> {
    pub tx: T,
    pub node_id: Option<u128>,
}

/// Whom a message is for.
#[derive(Debug, Clone, Copy, PartialEq, Eq, Structural)]
pub enum Audience {
    /// Every connection that is bound to a node.
    All,
    /// The connections of one node.
    Node(u128),
}

/// A text and the connections that it goes to.
#[derive(Debug, PartialEq)]
pub struct Delivery<'a, T> {
    pub text: String,
    pub to: Vec<(u128, &'a T)>,
}

/// Whether a connection with the node `node_id` belongs to an audience.
pub open spec fn in_audience(node_id: Option<u128>, audience: Audience) -> bool {
    match audience {
        Audience::All => node_id is Some,
        Audience::Node(id) => node_id == Some(id),
    }
}

/// Whether `to` lists exactly the connections of `conns` that belong to `audience`, each once.
pub open spec fn addresses<T>(
    to: Seq<(u128, &T)>,
    conns: Map<u128, NodeConn<T>>,
    audience: Audience,
) -> bool {
    &&& forall|i: int|
        0 <= i < to.len() ==> {
            &&& conns.contains_key((#[trigger] to[i]).0)
            &&& in_audience(conns[to[i].0].node_id, audience)
            &&& *to[i].1 == conns[to[i].0].tx
        }
    &&& forall|i: int, j: int|
        0 <= i < j < to.len() ==> (#[trigger] to[i]).0 != (#[trigger] to[j]).0
    &&& forall|id: u128| #[trigger]
        conns.contains_key(id) && in_audience(conns[id].node_id, audience) ==> exists|i: int|
            0 <= i < to.len() && (#[trigger] to[i]).0 == id
}

/// The connections once `conn_id` is bound to a node; an unknown connection is not.
pub open spec fn bound<T>(
    conns: Map<u128, NodeConn<T>>,
    conn_id: u128,
    node_id: u128,
) -> Map<u128, NodeConn<T>> {
    if conns.contains_key(conn_id) {
        conns.insert(conn_id, NodeConn { tx: conns[conn_id].tx, node_id: Some(node_id) })
    } else {
        conns
    }
}

/// The live state of a node, blank where nothing was reported.
pub open spec fn state_of(
    realtime: Map<u128, NodeRealtimeView>,
    node_id: u128,
) -> NodeRealtimeView {
    if realtime.contains_key(node_id) {
        realtime[node_id]
    } else {
        NodeRealtimeView::blank()
    }
}

/// The live states once a node reported its speed.
pub open spec fn with_speed(
    realtime: Map<u128, NodeRealtimeView>,
    node_id: u128,
    total_speed_bps: u64,
    now: Seq<char>,
) -> Map<u128, NodeRealtimeView> {
    realtime.insert(
        node_id,
        NodeRealtimeView {
            total_speed_bps,
            active_tasks: state_of(realtime, node_id).active_tasks,
            updated_at: now,
        },
    )
}

/// The live states once a node reported the progress of a task.
pub open spec fn with_task_progress(
    realtime: Map<u128, NodeRealtimeView>,
    node_id: u128,
    progress: TaskProgressState,
    now: Seq<char>,
) -> Map<u128, NodeRealtimeView> {
    realtime.insert(
        node_id,
        NodeRealtimeView {
            total_speed_bps: state_of(realtime, node_id).total_speed_bps,
            active_tasks: crate::progress::with_progress(
                state_of(realtime, node_id).active_tasks,
                progress,
            ),
            updated_at: now,
        },
    )
}

/// The live states once a dispatch of a node is over; nothing changes for an unknown node.
pub open spec fn without_task_progress(
    realtime: Map<u128, NodeRealtimeView>,
    node_id: u128,
    dispatch_id: u128,
    now: Seq<char>,
) -> Map<u128, NodeRealtimeView> {
    if realtime.contains_key(node_id) {
        realtime.insert(
            node_id,
            NodeRealtimeView {
                total_speed_bps: realtime[node_id].total_speed_bps,
                active_tasks: crate::progress::without_dispatch(
                    realtime[node_id].active_tasks,
                    dispatch_id,
                ),
                updated_at: now,
            },
        )
    } else {
        realtime
    }
}

/// What a map of live states holds.
pub open spec fn realtime_view(m: Map<u128, NodeRealtime>) -> Map<u128, NodeRealtimeView> {
    m.map_values(|n: NodeRealtime| n@)
}

/// The encoded message, or the empty text where encoding failed.
pub open spec fn text_or_empty(encoded: Option<String>) -> Seq<char> {
    match encoded {
        Some(text) => text@,
        None => seq![],
    }
}

/// The connections of the nodes and their live states. `T` is the sending end of a connection.
pub struct WsManager<T> {
    conns: HashMap<u128, NodeConn<T>>,
    realtime: HashMap<u128, NodeRealtime>,
}

impl<T> WsManager<T> {
    /// The open connections.
    pub closed spec fn conns(&self) -> Map<u128, NodeConn<T>> {
        self.conns@
    }

    /// The live states of the nodes.
    pub closed spec fn realtime(&self) -> Map<u128, NodeRealtimeView> {
        realtime_view(self.realtime@)
    }

    /// A manager without connections and without live states.
    pub fn new() -> (r: Self)
        ensures
            r.conns() == Map::<u128, NodeConn<T>>::empty(),
            r.realtime() == Map::<u128, NodeRealtimeView>::empty(),
    {
        let r = WsManager { conns: HashMap::new(), realtime: HashMap::new() };
        assert(r.realtime() =~= Map::<u128, NodeRealtimeView>::empty());
        r
    }

    /// Adds a connection.
    pub fn register(&mut self, conn_id: u128, tx: T, node_id: Option<u128>)
        ensures
            final(self).conns() == old(self).conns().insert(conn_id, NodeConn { tx, node_id }),
            final(self).realtime() == old(self).realtime(),
    {
        self.conns.insert(conn_id, NodeConn { tx, node_id });
    }

    /// Binds a connection to a node. An unknown connection is ignored.
    pub fn bind_node(&mut self, conn_id: u128, node_id: u128)
        ensures
            final(self).conns() == bound(old(self).conns(), conn_id, node_id),
            final(self).realtime() == old(self).realtime(),
    {
        if let Some(c) = self.conns.remove(&conn_id) {
            self.conns.insert(conn_id, NodeConn { tx: c.tx, node_id: Some(node_id) });
            assert(self.conns() =~= bound(old(self).conns(), conn_id, node_id));
        } else {
            assert(self.conns() =~= old(self).conns());
        }
    }

    /// Removes a connection.
    pub fn remove(&mut self, conn_id: u128)
        ensures
            final(self).conns() == old(self).conns().remove(conn_id),
            final(self).realtime() == old(self).realtime(),
    {
        self.conns.remove(&conn_id);
    }

    /// The connections that a message for `audience` goes to, with its text.
    pub fn deliver(&self, audience: Audience, encoded: Option<String>) -> (r: Delivery<'_, T>)
        ensures
            r.text@ == text_or_empty(encoded),
            addresses(r.to@, self.conns(), audience),
    {
        let text = match encoded {
            Some(text) => text,
            None => String::new(),
        };
        let mut to: Vec<(u128, &T)> = Vec::new();
        let ghost conns = self.conns@;
        let ghost mut from: Seq<int> = seq![];
        for (id, c) in it: self.conns.iter()
            invariant
                conns == self.conns@,
                it.seq().no_duplicates(),
                forall|k: int|
                    0 <= k < it.seq().len() ==> conns.contains_key(*(#[trigger] it.seq()[k]).0)
                        && conns[*it.seq()[k].0] == *it.seq()[k].1,
                forall|key: u128| #[trigger]
                    conns.contains_key(key) ==> it.seq().contains((&key, &conns[key])),
                forall|i: int|
                    0 <= i < to@.len() ==> {
                        &&& conns.contains_key((#[trigger] to@[i]).0)
                        &&& in_audience(conns[to@[i].0].node_id, audience)
                        &&& *to@[i].1 == conns[to@[i].0].tx
                    },
                forall|i: int, j: int|
                    0 <= i < j < to@.len() ==> (#[trigger] to@[i]).0 != (#[trigger] to@[j]).0,
                from.len() == to@.len(),
                forall|i: int|
                    0 <= i < to@.len() ==> 0 <= #[trigger] from[i] < it.index()
                        && *it.seq()[from[i]].0 == to@[i].0,
                forall|k: int|
                    0 <= k < it.index() && in_audience(
                        (#[trigger] it.seq()[k]).1.node_id,
                        audience,
                    ) ==> exists|i: int|
                        0 <= i < to@.len() && (#[trigger] to@[i]).0 == *it.seq()[k].0,
        {
            let ghost before = to@;
            let wanted = match audience {
                Audience::All => c.node_id.is_some(),
                Audience::Node(n) => match c.node_id {
                    Some(m) => m == n,
                    None => false,
                },
            };
            assert(it.seq()[it.index()] == (id, c));
            if wanted {
                to.push((*id, &c.tx));
                proof {
                    assert forall|i: int| 0 <= i < before.len() implies (
                    #[trigger] to@[i]).0 != *id by {
                        assert(to@[i] == before[i]);
                        if before[i].0 == *id {
                            assert(it.seq()[from[i]] == it.seq()[it.index()]);
                        }
                    }
                    from = from.push(it.index());
                    assert(to@[before.len() as int].0 == *id);
                    assert forall|k: int|
                        0 <= k < it.index() + 1 && in_audience(
                            (#[trigger] it.seq()[k]).1.node_id,
                            audience,
                        ) implies exists|i: int|
                        0 <= i < to@.len() && (#[trigger] to@[i]).0 == *it.seq()[k].0 by {
                        if k < it.index() {
                            let i = choose|i: int|
                                0 <= i < before.len() && (#[trigger] before[i]).0
                                    == *it.seq()[k].0;
                            assert(to@[i] == before[i]);
                        }
                    }
                }
            }
        }
        Delivery { text, to }
    }

    /// A message for every connection that is bound to a node.
    pub fn broadcast(&self, encoded: Option<String>) -> (r: Delivery<'_, T>)
        ensures
            r.text@ == text_or_empty(encoded),
            addresses(r.to@, self.conns(), Audience::All),
    {
        self.deliver(Audience::All, encoded)
    }

    /// A message for the connections of one node.
    pub fn send_to_node(&self, node_id: u128, encoded: Option<String>) -> (r: Delivery<'_, T>)
        ensures
            r.text@ == text_or_empty(encoded),
            addresses(r.to@, self.conns(), Audience::Node(node_id)),
    {
        self.deliver(Audience::Node(node_id), encoded)
    }

    /// Takes the live state of a node out of the map.
    fn take_state(&mut self, node_id: u128) -> (r: NodeRealtime)
        ensures
            final(self).conns() == old(self).conns(),
            final(self).realtime() == old(self).realtime().remove(node_id),
            r@ == state_of(old(self).realtime(), node_id),
    {
        let taken = self.realtime.remove(&node_id);
        assert(self.realtime() =~= old(self).realtime().remove(node_id));
        match taken {
            Some(state) => state,
            None => NodeRealtime::default(),
        }
    }

    /// Puts the live state of a node into the map.
    fn put_state(&mut self, node_id: u128, state: NodeRealtime)
        ensures
            final(self).conns() == old(self).conns(),
            final(self).realtime() == old(self).realtime().insert(node_id, state@),
    {
        self.realtime.insert(node_id, state);
        assert(self.realtime() =~= old(self).realtime().insert(node_id, state@));
    }

    /// Records the speed that a node reported at `now`.
    pub fn set_node_speed(&mut self, node_id: u128, total_speed_bps: u64, now: String)
        ensures
            final(self).conns() == old(self).conns(),
            final(self).realtime() == with_speed(
                old(self).realtime(),
                node_id,
                total_speed_bps,
                now@,
            ),
    {
        let mut entry = self.take_state(node_id);
        entry.total_speed_bps = total_speed_bps;
        entry.updated_at = now;
        self.put_state(node_id, entry);
        assert(self.realtime() =~= with_speed(
            old(self).realtime(),
            node_id,
            total_speed_bps,
            now@,
        ));
    }

    /// Records the speed that a node reports now.
    pub fn update_node_speed(&mut self, node_id: u128, total_speed_bps: u64)
        ensures
            final(self).conns() == old(self).conns(),
            exists|now: Seq<char>| #[trigger]
                crate::clock::is_utc_stamp(now) && final(self).realtime() == with_speed(
                    old(self).realtime(),
                    node_id,
                    total_speed_bps,
                    now,
                ),
    {
        let now = now_rfc3339();
        self.set_node_speed(node_id, total_speed_bps, now);
    }

    /// Records the progress of a task that a node reported at `now`.
    pub fn set_task_progress(&mut self, node_id: u128, progress: TaskProgressState, now: String)
        ensures
            final(self).conns() == old(self).conns(),
            final(self).realtime() == with_task_progress(
                old(self).realtime(),
                node_id,
                progress,
                now@,
            ),
    {
        let mut entry = self.take_state(node_id);
        entry.updated_at = now;
        put_progress(&mut entry.active_tasks, progress);
        self.put_state(node_id, entry);
        assert(self.realtime() =~= with_task_progress(
            old(self).realtime(),
            node_id,
            progress,
            now@,
        ));
    }

    /// Records the progress of a task that a node reports now.
    pub fn update_task_progress(&mut self, node_id: u128, progress: TaskProgressState)
        ensures
            final(self).conns() == old(self).conns(),
            exists|now: Seq<char>| #[trigger]
                crate::clock::is_utc_stamp(now) && final(self).realtime() == with_task_progress(
                    old(self).realtime(),
                    node_id,
                    progress,
                    now,
                ),
    {
        let now = now_rfc3339();
        self.set_task_progress(node_id, progress, now);
    }

    /// Drops the progress of a dispatch that was over at `now`.
    pub fn clear_task_progress(&mut self, node_id: u128, dispatch_id: u128, now: String)
        ensures
            final(self).conns() == old(self).conns(),
            final(self).realtime() == without_task_progress(
                old(self).realtime(),
                node_id,
                dispatch_id,
                now@,
            ),
    {
        if self.has_reported(node_id) {
            let mut entry = self.take_state(node_id);
            drop_dispatch(&mut entry.active_tasks, dispatch_id);
            entry.updated_at = now;
            self.put_state(node_id, entry);
            assert(self.realtime() =~= without_task_progress(
                old(self).realtime(),
                node_id,
                dispatch_id,
                now@,
            ));
        }
    }

    /// Drops the progress of a dispatch that is over now. For an unknown node nothing changes.
    pub fn remove_task_progress(&mut self, node_id: u128, dispatch_id: u128)
        ensures
            final(self).conns() == old(self).conns(),
            if old(self).realtime().contains_key(node_id) {
                exists|now: Seq<char>| #[trigger]
                    crate::clock::is_utc_stamp(now) && final(self).realtime()
                        == without_task_progress(
                        old(self).realtime(),
                        node_id,
                        dispatch_id,
                        now,
                    )
            } else {
                final(self).realtime() == old(self).realtime()
            },
    {
        if self.has_reported(node_id) {
            let now = now_rfc3339();
            self.clear_task_progress(node_id, dispatch_id, now);
        }
    }

    /// An identifier for a new connection.
    pub(crate) fn fresh_conn_id(&self) -> (r: u128)
        ensures
            !self.conns().contains_key(r),
            self.conns().dom().finite(),
            crate::ids::has_version(r, 4),
    {
        fresh_id(&self.conns)
    }

    /// Whether a node has a live state.
    pub(crate) fn has_reported(&self, node_id: u128) -> (r: bool)
        ensures
            r == self.realtime().contains_key(node_id),
    {
        self.realtime.contains_key(&node_id)
    }

    /// The live state of a node, if it reported one.
    pub fn get_node_realtime(&self, node_id: u128) -> (r: Option<NodeRealtime>)
        ensures
            r is Some <==> self.realtime().contains_key(node_id),
            r matches Some(state) ==> state@ == self.realtime()[node_id],
    {
        match self.realtime.get(&node_id) {
            Some(state) => Some(state.clone()),
            None => None,
        }
    }

    /// The live states of all nodes that reported one.
    pub fn get_all_realtime(&self) -> (r: HashMap<u128, NodeRealtime>)
        ensures
            realtime_view(r@) == self.realtime(),
    {
        self.realtime.clone()
    }
}

impl<T> Default for WsManager<T> {
    fn default() -> (r: Self)
        ensures
            r.conns() == Map::<u128, NodeConn<T>>::empty(),
            r.realtime() == Map::<u128, NodeRealtimeView>::empty(),
    {
        Self::new()
    }
}

} // verus!
