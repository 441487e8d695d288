//! Laws of the connections.

use vstd::prelude::*;

use crate::client::ClientMsg;
use crate::manager::{Audience, NodeConn};
use crate::models::RegisterPayload;

verus! {

/// Closing a connection undoes opening it, if its identifier was not in use.
pub proof fn law_closing_undoes_opening<T>(
    conns: Map<u128, NodeConn<T>>,
    conn_id: u128,
    conn: NodeConn<T>,
)
    requires
        !conns.contains_key(conn_id),
    ensures
        conns.insert(conn_id, conn).remove(conn_id) == conns,
{
    assert(conns.insert(conn_id, conn).remove(conn_id) =~= conns);
}

/// Opening a connection of the front end adds one to the count, if its identifier was not in use,
/// and closing it then takes that one away. An identifier that was in use is counted once.
pub proof fn law_connections_are_counted<T>(conns: Map<u128, T>, conn_id: u128, tx: T)
    requires
        conns.dom().finite(),
    ensures
        ({
            let opened = conns.insert(conn_id, tx);
            let closed = conns.remove(conn_id);
            &&& opened.dom().finite() && closed.dom().finite()
            &&& !conns.contains_key(conn_id) ==> {
                &&& opened.len() == conns.len() + 1
                &&& opened.remove(conn_id).len() == conns.len()
                &&& closed.len() == conns.len()
            }
            &&& conns.contains_key(conn_id) ==> {
                &&& opened.len() == conns.len()
                &&& closed.len() == conns.len() - 1
            }
        }),
{
    assert(conns.insert(conn_id, tx).dom() =~= conns.dom().insert(conn_id));
    assert(conns.remove(conn_id).dom() =~= conns.dom().remove(conn_id));
    if !conns.contains_key(conn_id) {
        assert(conns.insert(conn_id, tx).remove(conn_id).dom() =~= conns.dom());
    }
}

/// A closed connection gets no messages.
pub proof fn law_closed_gets_nothing<T>(
    conns: Map<u128, NodeConn<T>>,
    conn_id: u128,
    audience: Audience,
    to: Seq<(u128, &T)>,
)
    requires
        crate::manager::addresses(to, conns.remove(conn_id), audience),
    ensures
        forall|i: int| 0 <= i < to.len() ==> (#[trigger] to[i]).0 != conn_id,
{
}

/// A connection that is bound to no node gets no messages.
pub proof fn law_unbound_gets_nothing<T>(
    conns: Map<u128, NodeConn<T>>,
    conn_id: u128,
    audience: Audience,
    to: Seq<(u128, &T)>,
)
    requires
        conns.contains_key(conn_id),
        conns[conn_id].node_id is None,
        crate::manager::addresses(to, conns, audience),
    ensures
        forall|i: int| 0 <= i < to.len() ==> (#[trigger] to[i]).0 != conn_id,
{
}

/// Once an open connection is bound to a node, it gets what is sent to all and what is sent to the
/// node, and nothing that is sent to another node.
pub proof fn law_bound_gets_messages<T>(
    conns: Map<u128, NodeConn<T>>,
    conn_id: u128,
    node_id: u128,
    audience: Audience,
    to: Seq<(u128, &T)>,
)
    requires
        conns.contains_key(conn_id),
        crate::manager::addresses(
            to,
            crate::manager::bound(conns, conn_id, node_id),
            audience,
        ),
    ensures
        (exists|i: int| 0 <= i < to.len() && (#[trigger] to[i]).0 == conn_id) <==> (audience is All
            || audience == Audience::Node(node_id)),
{
    let after = crate::manager::bound(conns, conn_id, node_id);
    assert(after.contains_key(conn_id));
    assert(after[conn_id].node_id == Some(node_id));
}

/// Binding a connection anew replaces its node; binding one that is not open does nothing. Other
/// connections stay as they are.
pub proof fn law_rebinding<T>(
    conns: Map<u128, NodeConn<T>>,
    conn_id: u128,
    first: u128,
    second: u128,
    other: u128,
)
    requires
        other != conn_id,
    ensures
        crate::manager::bound(crate::manager::bound(conns, conn_id, first), conn_id, second)
            == crate::manager::bound(conns, conn_id, second),
        !conns.contains_key(conn_id) ==> crate::manager::bound(conns, conn_id, first) == conns,
        crate::manager::bound(conns, conn_id, first).dom() == conns.dom(),
        conns.contains_key(other) ==> crate::manager::bound(conns, conn_id, first)[other]
            == conns[other],
{
    assert(crate::manager::bound(crate::manager::bound(conns, conn_id, first), conn_id, second)
        =~= crate::manager::bound(conns, conn_id, second));
    assert(crate::manager::bound(conns, conn_id, first).dom() =~= conns.dom());
}

/// Whatever goes to one node would also go out in a message to all.
pub proof fn law_all_covers_each_node<T>(
    conns: Map<u128, NodeConn<T>>,
    node_id: u128,
    one: Seq<(u128, &T)>,
    all: Seq<(u128, &T)>,
)
    requires
        crate::manager::addresses(one, conns, Audience::Node(node_id)),
        crate::manager::addresses(all, conns, Audience::All),
    ensures
        forall|i: int| 0 <= i < one.len() ==> all.contains(#[trigger] one[i]),
{
    assert forall|i: int| 0 <= i < one.len() implies all.contains(#[trigger] one[i]) by {
        let id = one[i].0;
        assert(conns.contains_key(id));
        let j = choose|j: int| 0 <= j < all.len() && (#[trigger] all[j]).0 == id;
        assert(all[j] == one[i]);
    }
}

/// Two deliveries to the same audience reach the same connections, in whatever order.
pub proof fn law_audience_is_fixed<T>(
    conns: Map<u128, NodeConn<T>>,
    audience: Audience,
    a: Seq<(u128, &T)>,
    b: Seq<(u128, &T)>,
)
    requires
        crate::manager::addresses(a, conns, audience),
        crate::manager::addresses(b, conns, audience),
    ensures
        a.to_multiset() == b.to_multiset(),
{
    assert(a.no_duplicates());
    assert(b.no_duplicates());
    assert forall|x: (u128, &T)| #[trigger] a.contains(x) implies b.contains(x) by {
        let i = a.index_of(x);
        let j = choose|j: int| 0 <= j < b.len() && (#[trigger] b[j]).0 == a[i].0;
        assert(b[j] == a[i]);
    }
    assert forall|x: (u128, &T)| #[trigger] b.contains(x) implies a.contains(x) by {
        let i = b.index_of(x);
        let j = choose|j: int| 0 <= j < a.len() && (#[trigger] a[j]).0 == b[i].0;
        assert(a[j] == b[i]);
    }
    a.lemma_multiset_has_no_duplicates();
    b.lemma_multiset_has_no_duplicates();
    broadcast use vstd::seq_lib::group_to_multiset_ensures;

    assert forall|x: (u128, &T)| #[trigger]
        a.to_multiset().count(x) == b.to_multiset().count(x) by {
        if a.contains(x) {
            assert(b.contains(x));
            assert(a.to_multiset().contains(x));
            assert(b.to_multiset().contains(x));
        } else {
            assert(!b.contains(x));
            assert(!a.to_multiset().contains(x));
            assert(!b.to_multiset().contains(x));
        }
    }
    assert(a.to_multiset() =~= b.to_multiset());
}

/// A message to all reaches the connections that are bound to a node, one to a node those that are
/// bound to this node: all of them, no others, each once and by its own sender.
pub proof fn law_who_is_addressed<T>(
    to: Seq<(u128, &T)>,
    conns: Map<u128, NodeConn<T>>,
    audience: Audience,
)
    requires
        crate::manager::addresses(to, conns, audience),
    ensures
        forall|i: int|
            0 <= i < to.len() ==> conns.contains_key((#[trigger] to[i]).0) && *to[i].1
                == conns[to[i].0].tx,
        forall|i: int, j: int|
            0 <= i < to.len() && 0 <= j < to.len() && (#[trigger] to[i]).0 == (
            #[trigger] to[j]).0 ==> i == j,
        forall|id: u128|
            (exists|i: int| 0 <= i < to.len() && (#[trigger] to[i]).0 == id) <==> {
                &&& #[trigger] conns.contains_key(id)
                &&& match audience {
                    Audience::All => conns[id].node_id is Some,
                    Audience::Node(node) => conns[id].node_id == Some(node),
                }
            },
{
    assert forall|i: int, j: int|
        0 <= i < to.len() && 0 <= j < to.len() && (#[trigger] to[i]).0 == (
        #[trigger] to[j]).0 implies i == j by {
        if i < j {
            assert(to[i].0 != to[j].0);
        } else if j < i {
            assert(to[j].0 != to[i].0);
        }
    }
    assert forall|id: u128| (exists|i: int| 0 <= i < to.len() && (#[trigger] to[i]).0 == id)
        <==> {
        &&& #[trigger] conns.contains_key(id)
        &&& match audience {
            Audience::All => conns[id].node_id is Some,
            Audience::Node(node) => conns[id].node_id == Some(node),
        }
    } by {
        if exists|i: int| 0 <= i < to.len() && (#[trigger] to[i]).0 == id {
            let i = choose|i: int| 0 <= i < to.len() && (#[trigger] to[i]).0 == id;
            assert(crate::manager::in_audience(conns[to[i].0].node_id, audience));
        }
        if conns.contains_key(id) && match audience {
            Audience::All => conns[id].node_id is Some,
            Audience::Node(node) => conns[id].node_id == Some(node),
        } {
            assert(crate::manager::in_audience(conns[id].node_id, audience));
        }
    }
}

/// A message to the front end reaches every connection of it, no others, each once and by its own
/// sender.
pub proof fn law_front_end_is_addressed<T>(to: Seq<(u128, &T)>, conns: Map<u128, T>)
    requires
        crate::frontend::lists_all(to, conns),
    ensures
        forall|i: int|
            0 <= i < to.len() ==> conns.contains_key((#[trigger] to[i]).0) && *to[i].1
                == conns[to[i].0],
        forall|i: int, j: int|
            0 <= i < to.len() && 0 <= j < to.len() && (#[trigger] to[i]).0 == (
            #[trigger] to[j]).0 ==> i == j,
        forall|id: u128| #[trigger]
            conns.contains_key(id) <==> exists|i: int|
                0 <= i < to.len() && (#[trigger] to[i]).0 == id,
{
    assert forall|i: int, j: int|
        0 <= i < to.len() && 0 <= j < to.len() && (#[trigger] to[i]).0 == (
        #[trigger] to[j]).0 implies i == j by {
        if i < j {
            assert(to[i].0 != to[j].0);
        } else if j < i {
            assert(to[j].0 != to[i].0);
        }
    }
}

/// An open connection that is bound has the node that it was bound to and the sender that it had.
pub proof fn law_binding<T>(conns: Map<u128, NodeConn<T>>, conn_id: u128, node_id: u128)
    requires
        conns.contains_key(conn_id),
    ensures
        ({
            let after = crate::manager::bound(conns, conn_id, node_id);
            &&& after.contains_key(conn_id)
            &&& after[conn_id].node_id == Some(node_id)
            &&& after[conn_id].tx == conns[conn_id].tx
            &&& after.remove(conn_id) == conns.remove(conn_id)
        }),
{
    assert(crate::manager::bound(conns, conn_id, node_id).remove(conn_id) =~= conns.remove(
        conn_id,
    ));
}

/// Two connections that are opened one after the other, each under an identifier that is not in
/// use, are both open, beside all that were. A message to all reaches both, and closing one leaves
/// the other.
pub proof fn law_opening_one_after_the_other<T>(
    conns: Map<u128, NodeConn<T>>,
    first: u128,
    second: u128,
    a: NodeConn<T>,
    b: NodeConn<T>,
    to: Seq<(u128, &T)>,
)
    requires
        conns.dom().finite(),
        !conns.contains_key(first),
        !conns.insert(first, a).contains_key(second),
        a.node_id is Some,
        b.node_id is Some,
        crate::manager::addresses(to, conns.insert(first, a).insert(second, b), Audience::All),
    ensures
        ({
            let open = conns.insert(first, a).insert(second, b);
            &&& first != second
            &&& open.len() == conns.len() + 2
            &&& conns.submap_of(open)
            &&& open.remove(second) == conns.insert(first, a)
            &&& open.remove(first) == conns.insert(second, b)
            &&& exists|i: int| 0 <= i < to.len() && (#[trigger] to[i]) == (first, &a.tx)
            &&& exists|i: int| 0 <= i < to.len() && (#[trigger] to[i]) == (second, &b.tx)
        }),
{
    let open = conns.insert(first, a).insert(second, b);
    assert(conns.insert(first, a).dom() =~= conns.dom().insert(first));
    assert(open.dom() =~= conns.dom().insert(first).insert(second));
    assert(open.remove(second) =~= conns.insert(first, a));
    assert(open.remove(first) =~= conns.insert(second, b));
    assert(open.contains_key(first) && crate::manager::in_audience(
        open[first].node_id,
        Audience::All,
    ));
    assert(open.contains_key(second) && crate::manager::in_audience(
        open[second].node_id,
        Audience::All,
    ));
    let i = choose|i: int| 0 <= i < to.len() && (#[trigger] to[i]).0 == first;
    assert(to[i] == (first, &a.tx));
    let j = choose|j: int| 0 <= j < to.len() && (#[trigger] to[j]).0 == second;
    assert(to[j] == (second, &b.tx));
}

/// A registration gives its connection the node that it names and leaves the sender and all other
/// connections; over a connection that is not open it changes nothing.
pub proof fn law_registration_binds<T>(
    conns: Map<u128, NodeConn<T>>,
    conn_id: u128,
    p: RegisterPayload,
)
    ensures
        ({
            let after = crate::client::conns_after(
                conns,
                conn_id,
                ClientMsg::ComponentRegistered(Some(p)),
            );
            &&& conns.contains_key(conn_id) ==> {
                &&& after.contains_key(conn_id)
                &&& after[conn_id].node_id == Some(p.node_id)
                &&& after[conn_id].tx == conns[conn_id].tx
                &&& after.remove(conn_id) == conns.remove(conn_id)
            }
            &&& !conns.contains_key(conn_id) ==> after == conns
        }),
{
    if conns.contains_key(conn_id) {
        law_binding(conns, conn_id, p.node_id);
    }
}

} // verus!
