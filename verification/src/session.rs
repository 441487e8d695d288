//! The life of a WebSocket connection, of a node or of the front end.

use vstd::prelude::*;

use crate::clock::now_rfc3339;
use crate::frontend::FrontendWsManager;
use crate::ids::uuid_parse;
use crate::manager::{NodeConn, WsManager};
use crate::statement::{touch_statement, Statement};

verus! {

/// The time between two pings, in seconds.
pub const PING_SECS: u64 = 30;

/// What comes in over a connection.
#[derive(Debug, PartialEq)]
pub enum Frame {
    Text(String),
    Binary,
    Ping,
    Pong,
    Close,
    /// The connection ended or failed.
    Lost,
}

/// What a frame asks for.
#[derive(Debug, PartialEq)]
pub enum Received {
    /// To handle a message.
    Message(String),
    /// Nothing.
    Ignored,
    /// To close the connection.
    Closed,
}

/// What happens on the sending side of a connection.
#[derive(Debug, PartialEq)]
pub enum SendEvent<M> {
    /// The time for a ping has come.
    PingDue,
    /// A message was queued.
    Queued(M),
    /// Sending ended, well or not.
    Sent { ok: bool },
}

/// What the sending side does.
#[derive(Debug, PartialEq)]
pub enum SendStep<M> {
    SendPing,
    Send(M),
    Wait,
    Stop,
}

/// The connection of a node.
#[derive(Debug, Clone, Copy, PartialEq, Eq, Structural)]
pub struct Session {
    pub conn_id: u128,
    /// The node for which the connection was opened, if it said so.
    pub node_id: Option<u128>,
}

/// Whether `s` notes that the node of a new connection was seen; without a node there is nothing
/// to note.
pub open spec fn greets(s: Option<Statement>, node_id: Option<u128>, now: Seq<char>) -> bool {
    match node_id {
        Some(node) => s matches Some(s) && s@ == crate::statement::touch_node(node, now),
        None => s is None,
    }
}

/// What the sending side does next.
pub open spec fn send_step_for<M>(event: SendEvent<M>) -> SendStep<M> {
    match event {
        SendEvent::PingDue => SendStep::SendPing,
        SendEvent::Queued(m) => SendStep::Send(m),
        SendEvent::Sent { ok } => if ok {
            SendStep::Wait
        } else {
            SendStep::Stop
        },
    }
}

/// The node for which a connection is opened, from the query parameter `node_id`. A parameter that
/// is no identifier counts as missing.
pub fn ws_handler(param: Option<&str>) -> (r: Option<u128>)
    ensures
        r == (match param {
            Some(text) => crate::ids::parsed_id(text@),
            None => None,
        }),
{
    match param {
        Some(text) => uuid_parse(text),
        None => None,
    }
}

/// Opens the connection `conn_id` at `now`. The statement, if there is one, notes that the node
/// was seen; the connection stays open where it fails.
pub fn open_session_at<T>(
    ws: &mut WsManager<T>,
    conn_id: u128,
    tx: T,
    node_id: Option<u128>,
    now: String,
) -> (r: (Session, Option<Statement>))
    ensures
        r.0 == (Session { conn_id, node_id }),
        greets(r.1, node_id, now@),
        final(ws).conns() == old(ws).conns().insert(conn_id, NodeConn { tx, node_id }),
        final(ws).realtime() == old(ws).realtime(),
{
    ws.register(conn_id, tx, node_id);
    let greeting = match node_id {
        Some(node) => Some(touch_statement(node, now)),
        None => None,
    };
    (Session { conn_id, node_id }, greeting)
}

/// Opens a connection now, under an identifier that no open connection has. The time is asked for
/// only where there is a node to greet.
pub fn open_session<T>(ws: &mut WsManager<T>, tx: T, node_id: Option<u128>) -> (r: (
    Session,
    Option<Statement>,
))
    ensures
        crate::ids::has_version(r.0.conn_id, 4),
        !old(ws).conns().contains_key(r.0.conn_id),
        old(ws).conns().dom().finite(),
        r.0.node_id == node_id,
        node_id is Some ==> exists|now: Seq<char>| #[trigger]
            crate::clock::is_utc_stamp(now) && greets(r.1, node_id, now),
        node_id is None ==> r.1 is None,
        final(ws).conns() == old(ws).conns().insert(r.0.conn_id, NodeConn { tx, node_id }),
        final(ws).realtime() == old(ws).realtime(),
{
    let conn_id = ws.fresh_conn_id();
    let now = match node_id {
        Some(_) => now_rfc3339(),
        None => String::new(),
    };
    open_session_at(ws, conn_id, tx, node_id, now)
}

/// Closes a connection.
pub fn close_session<T>(ws: &mut WsManager<T>, session: Session)
    ensures
        final(ws).conns() == old(ws).conns().remove(session.conn_id),
        final(ws).realtime() == old(ws).realtime(),
{
    ws.remove(session.conn_id);
}

/// What a frame from a node asks for.
pub fn on_frame(frame: Frame) -> (r: Received)
    ensures
        r == (match frame {
            Frame::Text(text) => Received::Message(text),
            Frame::Binary | Frame::Ping | Frame::Pong => Received::Ignored,
            Frame::Close | Frame::Lost => Received::Closed,
        }),
{
    match frame {
        Frame::Text(text) => Received::Message(text),
        Frame::Binary => Received::Ignored,
        Frame::Ping => Received::Ignored,
        Frame::Pong => Received::Ignored,
        Frame::Close => Received::Closed,
        Frame::Lost => Received::Closed,
    }
}

/// What the sending side does next.
pub fn send_step<M>(event: SendEvent<M>) -> (r: SendStep<M>)
    ensures
        r == send_step_for(event),
{
    match event {
        SendEvent::PingDue => SendStep::SendPing,
        SendEvent::Queued(m) => SendStep::Send(m),
        SendEvent::Sent { ok } => {
            if ok {
                SendStep::Wait
            } else {
                SendStep::Stop
            }
        },
    }
}

/// Opens a connection of the front end, under an identifier that no open one has.
pub fn open_frontend_session<T>(frontend: &mut FrontendWsManager<T>, tx: T) -> (r: u128)
    ensures
        crate::ids::has_version(r, 4),
        !old(frontend).conns().contains_key(r),
        old(frontend).conns().dom().finite(),
        final(frontend).conns() == old(frontend).conns().insert(r, tx),
        final(frontend).dirty() == old(frontend).dirty(),
{
    let conn_id = frontend.fresh_conn_id();
    frontend.register(conn_id, tx);
    conn_id
}

/// What a frame from the front end asks for: only the end of the connection matters.
pub fn on_frontend_frame(frame: Frame) -> (r: Received)
    ensures
        r == (match frame {
            Frame::Close | Frame::Lost => Received::Closed,
            _ => Received::Ignored,
        }),
{
    match frame {
        Frame::Close => Received::Closed,
        Frame::Lost => Received::Closed,
        _ => Received::Ignored,
    }
}

} // verus!
