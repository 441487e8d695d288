//! The connections of the web front end.

use std::collections::HashMap;

use vstd::prelude::*;

use crate::ids::fresh_id;
use crate::manager::Delivery;

verus! {

broadcast use vstd::std_specs::hash::group_hash_axioms;

/// Whether `to` lists every connection of `conns` once.
pub open spec fn lists_all<T>(to: Seq<(u128, &T)>, conns: Map<u128, T>) -> bool {
    &&& forall|i: int|
        0 <= i < to.len() ==> conns.contains_key((#[trigger] to[i]).0) && *to[i].1
            == conns[to[i].0]
    &&& forall|i: int, j: int|
        0 <= i < j < to.len() ==> (#[trigger] to[i]).0 != (#[trigger] to[j]).0
    &&& forall|id: u128| #[trigger]
        conns.contains_key(id) ==> exists|i: int| 0 <= i < to.len() && (#[trigger] to[i]).0 == id
}

/// The connections of the front end, and whether something changed since the last push. `T` is
/// the sending end of a connection.
pub struct FrontendWsManager<T> {
    conns: HashMap<u128, T>,
    dirty: bool,
}

impl<T> FrontendWsManager<T> {
    /// The open connections.
    pub closed spec fn conns(&self) -> Map<u128, T> {
        self.conns@
    }

    /// Whether something changed since the last push.
    pub closed spec fn dirty(&self) -> bool {
        self.dirty
    }

    /// A manager without connections, with a push pending.
    pub fn new() -> (r: Self)
        ensures
            r.conns() == Map::<u128, T>::empty(),
            r.dirty(),
    {
        FrontendWsManager { conns: HashMap::new(), dirty: true }
    }

    /// Notes that something changed.
    pub fn notify_update(&mut self)
        ensures
            final(self).conns() == old(self).conns(),
            final(self).dirty(),
    {
        self.dirty = true;
    }

    /// Whether something changed since the last call; from now on nothing has.
    pub fn check_and_clear_dirty(&mut self) -> (r: bool)
        ensures
            r == old(self).dirty(),
            final(self).conns() == old(self).conns(),
            !final(self).dirty(),
    {
        let was = self.dirty;
        self.dirty = false;
        was
    }

    /// Adds a connection.
    pub fn register(&mut self, conn_id: u128, tx: T)
        ensures
            final(self).conns() == old(self).conns().insert(conn_id, tx),
            final(self).dirty() == old(self).dirty(),
    {
        self.conns.insert(conn_id, tx);
    }

    /// Removes a connection.
    pub fn remove(&mut self, conn_id: u128)
        ensures
            final(self).conns() == old(self).conns().remove(conn_id),
            final(self).dirty() == old(self).dirty(),
    {
        self.conns.remove(&conn_id);
    }

    /// A message for every connection; nothing is sent where encoding it failed.
    pub fn broadcast(&self, encoded: Option<String>) -> (r: Option<Delivery<'_, T>>)
        ensures
            r is Some <==> encoded is Some,
            r matches Some(d) ==> Some(d.text) == encoded && lists_all(d.to@, self.conns()),
    {
        let text = match encoded {
            Some(text) => text,
            None => return None,
        };
        let mut to: Vec<(u128, &T)> = Vec::new();
        let ghost conns = self.conns@;
        for (id, tx) in it: self.conns.iter()
            invariant
                conns == self.conns@,
                it.seq().no_duplicates(),
                forall|k: int|
                    0 <= k < it.seq().len() ==> conns.contains_key(*(#[trigger] it.seq()[k]).0)
                        && conns[*it.seq()[k].0] == *it.seq()[k].1,
                forall|key: u128| #[trigger]
                    conns.contains_key(key) ==> it.seq().contains((&key, &conns[key])),
                to@.len() == it.index(),
                forall|i: int|
                    0 <= i < to@.len() ==> (#[trigger] to@[i]).0 == *it.seq()[i].0 && *to@[i].1
                        == *it.seq()[i].1,
                forall|k: int|
                    0 <= k < it.index() ==> *(#[trigger] it.seq()[k]).0 == to@[k].0,
        {
            to.push((*id, tx));
        }
        Some(Delivery { text, to })
    }

    /// An identifier for a new connection.
    pub(crate) fn fresh_conn_id(&self) -> (r: u128)
        ensures
            !self.conns().contains_key(r),
            self.conns().dom().finite(),
            crate::ids::has_version(r, 4),
    {
        fresh_id(&self.conns)
    }

    /// The number of connections.
    pub fn conn_count(&self) -> (r: usize)
        ensures
            self.conns().dom().finite(),
            r == self.conns().len(),
    {
        self.conns.len()
    }
}

impl<T> Default for FrontendWsManager<T> {
    fn default() -> (r: Self)
        ensures
            r.conns() == Map::<u128, T>::empty(),
            r.dirty(),
    {
        Self::new()
    }
}

} // verus!
