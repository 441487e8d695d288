//! When and what is pushed to the web front end.
//!
//! A driver ticks the [`Broadcaster`], runs the query that a tick asks for, hands the rows back
//! and sends what [`realtime_push`] makes of them.

use std::collections::HashMap;

use vstd::prelude::*;

use crate::clock::now_rfc3339;
use crate::frontend::FrontendWsManager;
use crate::ids::{uuid_parse, NIL};
use crate::models::{clone_tasks, NodeInfo, NodeRealtime, NodeRealtimeView, TaskProgressState};

verus! {

broadcast use vstd::std_specs::hash::group_hash_axioms;

/// The time between two ticks, in milliseconds.
pub const TICK_MILLIS: u64 = 50;

/// After how many nanoseconds a push is due though nothing has changed.
pub const FULL_INTERVAL_NANOS: u128 = 1_000_000_000;

/// For how many nanoseconds the rows of the nodes are reused.
pub const CACHE_TTL_NANOS: u128 = 1_000_000_000;

/// The query for the rows of the nodes.
pub const NODES_QUERY: &'static str =
    "SELECT id, hostname, platform, arch, version, status, last_seen FROM nodes ORDER BY hostname";

/// What `FrontendNodeState` holds.
#[verifier::ext_equal]
pub struct FrontendNodeView {
    pub node_id: u128,
    pub hostname: Seq<char>,
    pub platform: Seq<char>,
    pub version: Seq<char>,
    pub status: Seq<char>,
    pub total_speed_bps: u64,
    pub active_tasks: Seq<TaskProgressState>,
    pub last_seen: Seq<char>,
}

/// A node as the front end shows it.
#[derive(Debug, Clone, PartialEq)]
pub struct FrontendNodeState {
    pub node_id: u128,
    pub hostname: String,
    pub platform: String,
    pub version: String,
    pub status: String,
    pub total_speed_bps: u64,
    pub active_tasks: Vec<TaskProgressState>,
    pub last_seen: String,
}

impl View for FrontendNodeState {
    type V = FrontendNodeView;

    open spec fn view(&self) -> FrontendNodeView {
        FrontendNodeView {
            node_id: self.node_id,
            hostname: self.hostname@,
            platform: self.platform@,
            version: self.version@,
            status: self.status@,
            total_speed_bps: self.total_speed_bps,
            active_tasks: self.active_tasks@,
            last_seen: self.last_seen@,
        }
    }
}

/// A message to the front end.
#[derive(Debug, PartialEq)]
pub enum FrontendPushMsg {
    /// The state of all nodes.
    Realtime { nodes: Vec<FrontendNodeState>, timestamp: String },
    /// Keeps a connection alive.
    Ping,
}

/// What a tick asks for.
#[derive(Debug, PartialEq)]
pub enum Tick {
    /// Nothing.
    Skip,
    /// To query the rows of the nodes and to hand them to [`Broadcaster::loaded`].
    Query,
    /// To push these rows.
    Push(Vec<NodeInfo>),
}

/// What a tick holds.
pub enum Asked {
    Nothing,
    Query,
    Push(Seq<NodeInfo>),
}

impl View for Tick {
    type V = Asked;

    open spec fn view(&self) -> Asked {
        match *self {
            Tick::Skip => Asked::Nothing,
            Tick::Query => Asked::Query,
            Tick::Push(rows) => Asked::Push(rows@),
        }
    }
}

/// The nanoseconds from `since` to `now`; none where the clock went back.
pub open spec fn elapsed(since: u128, now: u128) -> int {
    if now >= since {
        now - since
    } else {
        0
    }
}

/// Whether a push is due though nothing has changed.
pub open spec fn full_push_due(last_full: u128, now: u128) -> bool {
    elapsed(last_full, now) >= FULL_INTERVAL_NANOS
}

/// The cached rows, as long as they may be reused.
pub open spec fn fresh_rows(cache: Option<(u128, Seq<NodeInfo>)>, now: u128) -> Option<
    Seq<NodeInfo>,
> {
    match cache {
        Some((at, rows)) if elapsed(at, now) < CACHE_TTL_NANOS => Some(rows),
        _ => None,
    }
}

/// What a tick at `now` asks for.
pub open spec fn asked(
    connected: bool,
    dirty: bool,
    last_full: u128,
    cache: Option<(u128, Seq<NodeInfo>)>,
    now: u128,
) -> Asked {
    if !connected || !(dirty || full_push_due(last_full, now)) {
        Asked::Nothing
    } else {
        match fresh_rows(cache, now) {
            Some(rows) => Asked::Push(rows),
            None => Asked::Query,
        }
    }
}

/// Whether changes are still unseen after a tick.
pub open spec fn dirty_after(connected: bool, dirty: bool) -> bool {
    dirty && !connected
}

/// When a push was last due, after a tick at `now`.
pub open spec fn last_full_after(connected: bool, last_full: u128, now: u128) -> u128 {
    if connected && full_push_due(last_full, now) {
        now
    } else {
        last_full
    }
}

/// The rows that are kept after a query.
pub open spec fn cache_after(
    cache: Option<(u128, Seq<NodeInfo>)>,
    outcome: Option<Seq<NodeInfo>>,
    now: u128,
) -> Option<(u128, Seq<NodeInfo>)> {
    match outcome {
        Some(rows) => Some((now, rows)),
        None => cache,
    }
}

/// The rows that a query brought.
pub open spec fn rows_of(outcome: Option<Vec<NodeInfo>>) -> Option<Seq<NodeInfo>> {
    match outcome {
        Some(rows) => Some(rows@),
        None => None,
    }
}

/// The rows that could be read, in their order.
pub open spec fn rows_read(rows: Seq<Option<NodeInfo>>) -> Seq<NodeInfo>
    decreases rows.len(),
{
    if rows.len() == 0 {
        seq![]
    } else {
        match rows.last() {
            Some(row) => rows_read(rows.drop_last()).push(row),
            None => rows_read(rows.drop_last()),
        }
    }
}

/// The identifier under which a row's live state is looked up: the nil one where the row's text
/// is no identifier.
pub open spec fn shown_id(parsed: Option<u128>) -> u128 {
    match parsed {
        Some(id) => id,
        None => NIL,
    }
}

/// A node as the front end shows it: its row, with the live state of `node_id`.
pub open spec fn shown_node(
    row: NodeInfo,
    node_id: u128,
    realtime: Map<u128, NodeRealtimeView>,
) -> FrontendNodeView {
    let state = crate::manager::state_of(realtime, node_id);
    FrontendNodeView {
        node_id,
        hostname: row.hostname@,
        platform: row.platform@,
        version: row.version@,
        status: row.status@,
        total_speed_bps: state.total_speed_bps,
        active_tasks: state.active_tasks,
        last_seen: row.last_seen@,
    }
}

/// Whether `shown` holds one node for each row, in the order of the rows.
pub open spec fn shows_all(
    shown: Seq<FrontendNodeState>,
    rows: Seq<NodeInfo>,
    realtime: Map<u128, NodeRealtimeView>,
) -> bool {
    &&& shown.len() == rows.len()
    &&& forall|i: int|
        0 <= i < rows.len() ==> (#[trigger] shown[i])@ == shown_node(
            rows[i],
            shown_id(crate::ids::parsed_id(rows[i].id@)),
            realtime,
        )
}

fn nanos_since(since: u128, now: u128) -> (r: u128)
    ensures
        r == elapsed(since, now),
{
    if now >= since {
        now - since
    } else {
        0
    }
}

fn clone_rows(rows: &Vec<NodeInfo>) -> (r: Vec<NodeInfo>)
    ensures
        r@ == rows@,
{
    let r = rows.clone();
    assert forall|i: int| 0 <= i < rows@.len() implies r@[i] == rows@[i] by {
        assert(cloned::<NodeInfo>(rows@[i], r@[i]));
    }
    assert(r@ =~= rows@);
    r
}

/// Keeps the rows that could be read, in their order.
pub fn readable_rows(rows: Vec<Option<NodeInfo>>) -> (r: Vec<NodeInfo>)
    ensures
        r@ == rows_read(rows@),
{
    let mut r: Vec<NodeInfo> = Vec::new();
    let mut i: usize = 0;
    while i < rows.len()
        invariant
            i <= rows@.len(),
            r@ == rows_read(rows@.take(i as int)),
        decreases rows@.len() - i,
    {
        assert(rows@.take(i + 1).drop_last() == rows@.take(i as int));
        if let Some(row) = &rows[i] {
            r.push(row.clone());
        }
        i = i + 1;
    }
    assert(rows@.take(i as int) == rows@);
    r
}

/// Decides what is pushed when. Times are nanoseconds on a clock of the driver's that does not
/// depend on the time of day.
pub struct Broadcaster {
    last_full: u128,
    cache: Option<(u128, Vec<NodeInfo>)>,
}

impl Broadcaster {
    /// When a push was last due though nothing had changed.
    pub closed spec fn last_full(&self) -> u128 {
        self.last_full
    }

    /// The rows that were last queried, and when.
    pub closed spec fn cache(&self) -> Option<(u128, Seq<NodeInfo>)> {
        match self.cache {
            Some((at, rows)) => Some((at, rows@)),
            None => None,
        }
    }

    /// A broadcaster that starts at `now`, with no rows.
    pub fn new(now: u128) -> (r: Self)
        ensures
            r.last_full() == now,
            r.cache() is None,
    {
        Broadcaster { last_full: now, cache: None }
    }

    /// One tick. Without front end connections nothing happens. Otherwise the front end's changes
    /// count as seen; a push follows if there were any, or if one is due anyway.
    pub fn tick<T>(&mut self, frontend: &mut FrontendWsManager<T>, now: u128) -> (r: Tick)
        ensures
            old(frontend).conns().dom().finite(),
            final(frontend).conns() == old(frontend).conns(),
            final(self).cache() == old(self).cache(),
            ({
                let connected = old(frontend).conns().len() > 0;
                &&& final(frontend).dirty() == dirty_after(connected, old(frontend).dirty())
                &&& final(self).last_full() == last_full_after(
                    connected,
                    old(self).last_full(),
                    now,
                )
                &&& r@ == asked(
                    connected,
                    old(frontend).dirty(),
                    old(self).last_full(),
                    old(self).cache(),
                    now,
                )
            }),
    {
        if frontend.conn_count() == 0 {
            return Tick::Skip;
        }
        let dirty = frontend.check_and_clear_dirty();
        let due = nanos_since(self.last_full, now) >= FULL_INTERVAL_NANOS;
        if !dirty && !due {
            return Tick::Skip;
        }
        if due {
            self.last_full = now;
        }
        match &self.cache {
            Some((at, rows)) => {
                if nanos_since(*at, now) < CACHE_TTL_NANOS {
                    Tick::Push(clone_rows(rows))
                } else {
                    Tick::Query
                }
            },
            None => Tick::Query,
        }
    }

    /// Takes in the outcome of the query. Rows are kept for later ticks and are to be pushed; a
    /// failed query leaves the earlier rows and pushes nothing.
    pub fn loaded(&mut self, outcome: Option<Vec<NodeInfo>>, now: u128) -> (r: Option<
        Vec<NodeInfo>,
    >)
        ensures
            r == outcome,
            final(self).last_full() == old(self).last_full(),
            final(self).cache() == cache_after(old(self).cache(), rows_of(outcome), now),
    {
        match outcome {
            Some(rows) => {
                self.cache = Some((now, clone_rows(&rows)));
                Some(rows)
            },
            None => None,
        }
    }
}

/// A node as the front end shows it, from its row and from what its identifier was read as.
pub fn frontend_node(
    row: NodeInfo,
    parsed: Option<u128>,
    realtime: &HashMap<u128, NodeRealtime>,
) -> (r: FrontendNodeState)
    ensures
        r@ == shown_node(row, shown_id(parsed), crate::manager::realtime_view(realtime@)),
{
    let node_id: u128 = match parsed {
        Some(id) => id,
        None => NIL,
    };
    let (total_speed_bps, active_tasks) = match realtime.get(&node_id) {
        Some(state) => (state.total_speed_bps, clone_tasks(&state.active_tasks)),
        None => (0u64, Vec::new()),
    };
    FrontendNodeState {
        node_id,
        hostname: row.hostname,
        platform: row.platform,
        version: row.version,
        status: row.status,
        total_speed_bps,
        active_tasks,
        last_seen: row.last_seen,
    }
}

/// The message that shows all nodes as they were at `timestamp`.
pub fn realtime_push_at(
    rows: Vec<NodeInfo>,
    realtime: &HashMap<u128, NodeRealtime>,
    timestamp: String,
) -> (r: FrontendPushMsg)
    ensures
        r matches FrontendPushMsg::Realtime { nodes, timestamp: at } && at == timestamp
            && shows_all(nodes@, rows@, crate::manager::realtime_view(realtime@)),
{
    let mut nodes: Vec<FrontendNodeState> = Vec::new();
    let ghost all = rows@;
    for row in it: rows
        invariant
            it.seq() == all,
            nodes@.len() == it.index(),
            forall|i: int|
                0 <= i < nodes@.len() ==> (#[trigger] nodes@[i])@ == shown_node(
                    all[i],
                    shown_id(crate::ids::parsed_id(all[i].id@)),
                    crate::manager::realtime_view(realtime@),
                ),
    {
        let parsed = uuid_parse(row.id.as_str());
        nodes.push(frontend_node(row, parsed, realtime));
    }
    FrontendPushMsg::Realtime { nodes, timestamp }
}

/// The message that shows all nodes as they are now.
pub fn realtime_push(rows: Vec<NodeInfo>, realtime: &HashMap<u128, NodeRealtime>) -> (r:
    FrontendPushMsg)
    ensures
        r matches FrontendPushMsg::Realtime { nodes, timestamp } && crate::clock::is_utc_stamp(
            timestamp@,
        ) && shows_all(nodes@, rows@, crate::manager::realtime_view(realtime@)),
{
    let timestamp = now_rfc3339();
    realtime_push_at(rows, realtime, timestamp)
}

} // verus!
