//! The SQL statements on the table of nodes.

use vstd::prelude::*;

use crate::ids::uuid_text;
use crate::models::RegisterPayload;

verus! {

/// The assignment that every update of a node makes: a node that awaits approval goes on waiting,
/// any other is online.
pub const STATUS_CLAUSE: &'static str =
    "status=CASE WHEN status='pending' THEN 'pending' ELSE 'online' END";

/// A parameter of a statement.
#[derive(Debug, PartialEq)]
pub enum SqlValue {
    Text(String),
    Integer(i64),
}

/// What a parameter holds.
pub enum SqlArg {
    Text(Seq<char>),
    Integer(i64),
}

impl View for SqlValue {
    type V = SqlArg;

    open spec fn view(&self) -> SqlArg {
        match *self {
            SqlValue::Text(s) => SqlArg::Text(s@),
            SqlValue::Integer(n) => SqlArg::Integer(n),
        }
    }
}

/// What a statement holds.
#[verifier::ext_equal]
pub struct StatementView {
    pub sql: Seq<char>,
    pub params: Seq<SqlArg>,
}

/// A statement with its parameters, the first of which is `?1`.
#[derive(Debug, PartialEq)]
pub struct Statement {
    pub sql: String,
    pub params: Vec<SqlValue>,
}

impl View for Statement {
    type V = StatementView;

    open spec fn view(&self) -> StatementView {
        StatementView {
            sql: self.sql@,
            params: self.params@.map_values(|p: SqlValue| p@),
        }
    }
}

/// The statements that register a node: `probe` counts its rows, after which `update` or `insert`
/// is executed.
#[derive(Debug, PartialEq)]
pub struct RegisterNode {
    pub probe: Statement,
    pub update: Statement,
    pub insert: Statement,
}

/// An unsigned number as a column of signed ones stores it: modulo 2^64.
pub open spec fn stored(n: u64) -> i64 {
    if n <= i64::MAX {
        n as i64
    } else {
        (n - 0x1_0000_0000_0000_0000) as i64
    }
}

/// The text of an update of a node, which assigns `before`, the status and `after`.
pub open spec fn node_update(before: Seq<char>, after: Seq<char>) -> Seq<char> {
    "UPDATE nodes SET "@ + before + STATUS_CLAUSE@ + after
}

/// Notes that a node was seen.
pub open spec fn touch_node(node_id: u128, now: Seq<char>) -> StatementView {
    StatementView {
        sql: node_update(""@, ", last_seen=?1 WHERE id=?2"@),
        params: seq![SqlArg::Text(now), SqlArg::Text(crate::ids::hyphenated(node_id))],
    }
}

/// Notes that a node was seen, and its work load.
pub open spec fn load_node(
    node_id: u128,
    active_tasks: u32,
    bytes_downloaded: u64,
    now: Seq<char>,
) -> StatementView {
    StatementView {
        sql: node_update(
            ""@,
            ", last_seen=?1, active_tasks=?2, bytes_downloaded=?3 WHERE id=?4"@,
        ),
        params: seq![
            SqlArg::Text(now),
            SqlArg::Integer(active_tasks as i64),
            SqlArg::Integer(stored(bytes_downloaded)),
            SqlArg::Text(crate::ids::hyphenated(node_id)),
        ],
    }
}

/// Counts the rows of a node.
pub open spec fn count_node(node_id: u128) -> StatementView {
    StatementView {
        sql: "SELECT COUNT(*) FROM nodes WHERE id = ?1"@,
        params: seq![SqlArg::Text(crate::ids::hyphenated(node_id))],
    }
}

/// Describes a known node anew.
pub open spec fn describe_node(node: RegisterPayload, now: Seq<char>) -> StatementView {
    StatementView {
        sql: node_update(
            "hostname=?1, platform=?2, arch=?3, version=?4, "@,
            ", last_seen=?5 WHERE id=?6"@,
        ),
        params: seq![
            SqlArg::Text(node.hostname@),
            SqlArg::Text(node.platform@),
            SqlArg::Text(node.arch@),
            SqlArg::Text(node.version@),
            SqlArg::Text(now),
            SqlArg::Text(crate::ids::hyphenated(node.node_id)),
        ],
    }
}

/// Adds a node, which is online.
pub open spec fn insert_node(node: RegisterPayload, now: Seq<char>) -> StatementView {
    StatementView {
        sql: "INSERT INTO nodes VALUES (?1,?2,?3,?4,?5,'online',?6,?6,'[]',0,0,NULL)"@,
        params: seq![
            SqlArg::Text(crate::ids::hyphenated(node.node_id)),
            SqlArg::Text(node.hostname@),
            SqlArg::Text(node.platform@),
            SqlArg::Text(node.arch@),
            SqlArg::Text(node.version@),
            SqlArg::Text(now),
        ],
    }
}

/// Whether a probe found the node. A probe that failed did not.
pub open spec fn is_known(count: Option<i64>) -> bool {
    count matches Some(n) && n > 0
}

fn node_update_sql(before: &str, after: &str) -> (r: String)
    ensures
        r@ == node_update(before@, after@),
{
    "UPDATE nodes SET ".to_string().concat(before).concat(STATUS_CLAUSE).concat(after)
}

/// An unsigned number as a column of signed ones stores it.
fn to_stored(n: u64) -> (r: i64)
    ensures
        r == stored(n),
{
    if n <= 0x7fff_ffff_ffff_ffff {
        n as i64
    } else {
        (n - 0x8000_0000_0000_0000) as i64 - 0x7fff_ffff_ffff_ffff - 1
    }
}

/// The statement that notes that a node was seen at `now`.
pub fn touch_statement(node_id: u128, now: String) -> (r: Statement)
    ensures
        r@ == touch_node(node_id, now@),
{
    let mut params: Vec<SqlValue> = Vec::new();
    params.push(SqlValue::Text(now));
    params.push(SqlValue::Text(uuid_text(node_id)));
    let r = Statement { sql: node_update_sql("", ", last_seen=?1 WHERE id=?2"), params };
    assert(r@ =~= touch_node(node_id, now@));
    r
}

/// The statement that notes that a node was seen at `now`, and its work load.
pub fn load_statement(
    node_id: u128,
    active_tasks: u32,
    bytes_downloaded: u64,
    now: String,
) -> (r: Statement)
    ensures
        r@ == load_node(node_id, active_tasks, bytes_downloaded, now@),
{
    let mut params: Vec<SqlValue> = Vec::new();
    params.push(SqlValue::Text(now));
    params.push(SqlValue::Integer(active_tasks as i64));
    params.push(SqlValue::Integer(to_stored(bytes_downloaded)));
    params.push(SqlValue::Text(uuid_text(node_id)));
    let r = Statement {
        sql: node_update_sql(
            "",
            ", last_seen=?1, active_tasks=?2, bytes_downloaded=?3 WHERE id=?4",
        ),
        params,
    };
    assert(r@ =~= load_node(node_id, active_tasks, bytes_downloaded, now@));
    r
}

/// The statements that register a node at `now`.
pub fn register_statements(node: RegisterPayload, now: String) -> (r: RegisterNode)
    ensures
        r.probe@ == count_node(node.node_id),
        r.update@ == describe_node(node, now@),
        r.insert@ == insert_node(node, now@),
{
    let mut count: Vec<SqlValue> = Vec::new();
    count.push(SqlValue::Text(uuid_text(node.node_id)));
    let probe = Statement {
        sql: "SELECT COUNT(*) FROM nodes WHERE id = ?1".to_string(),
        params: count,
    };
    assert(probe@ =~= count_node(node.node_id));
    let mut known: Vec<SqlValue> = Vec::new();
    known.push(SqlValue::Text(node.hostname.clone()));
    known.push(SqlValue::Text(node.platform.clone()));
    known.push(SqlValue::Text(node.arch.clone()));
    known.push(SqlValue::Text(node.version.clone()));
    known.push(SqlValue::Text(now.clone()));
    known.push(SqlValue::Text(uuid_text(node.node_id)));
    let update = Statement {
        sql: node_update_sql(
            "hostname=?1, platform=?2, arch=?3, version=?4, ",
            ", last_seen=?5 WHERE id=?6",
        ),
        params: known,
    };
    assert(update@ =~= describe_node(node, now@));
    let mut fresh: Vec<SqlValue> = Vec::new();
    fresh.push(SqlValue::Text(uuid_text(node.node_id)));
    fresh.push(SqlValue::Text(node.hostname));
    fresh.push(SqlValue::Text(node.platform));
    fresh.push(SqlValue::Text(node.arch));
    fresh.push(SqlValue::Text(node.version));
    fresh.push(SqlValue::Text(now));
    let insert = Statement {
        sql: "INSERT INTO nodes VALUES (?1,?2,?3,?4,?5,'online',?6,?6,'[]',0,0,NULL)".to_string(),
        params: fresh,
    };
    assert(insert@ =~= insert_node(node, now@));
    RegisterNode { probe, update, insert }
}

impl RegisterNode {
    /// The statement to execute once the probe has counted the rows of the node.
    pub fn after_probe(self, count: Option<i64>) -> (r: Statement)
        ensures
            r == (if is_known(count) {
                self.update
            } else {
                self.insert
            }),
    {
        match count {
            Some(n) if n > 0 => self.update,
            _ => self.insert,
        }
    }
}

} // verus!
