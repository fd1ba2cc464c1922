//! Bookkeeping of a node's active connections and of the peers it knew at
//! build time.

use vstd::prelude::*;

use crate::history::strings_view;
use crate::strset::StringSet;

verus! {

/// The peers a node is connected to and the addresses it knew when built.
#[derive(Debug)]
pub struct ConnectionTracker {
    /// Peers the node has active connections to.
    current_peers: StringSet,
    /// Addresses of the peers the node knows at build time.
    known_peers: StringSet,
}

impl Default for ConnectionTracker {
    /// A tracker with no connections and no known peers.
    fn default() -> (t: Self)
        ensures
            t.current() == Set::<Seq<char>>::empty(),
            t.known_set() == Set::<Seq<char>>::empty(),
    {
        ConnectionTracker::new()
    }
}

impl ConnectionTracker {
    /// Peers with an active connection.
    pub closed spec fn current(&self) -> Set<Seq<char>> {
        self.current_peers.set()
    }

    /// Addresses known at build time.
    pub closed spec fn known_set(&self) -> Set<Seq<char>> {
        self.known_peers.set()
    }

    /// A tracker with no connections and no known peers.
    pub fn new() -> (t: Self)
        ensures
            t.current() == Set::<Seq<char>>::empty(),
            t.known_set() == Set::<Seq<char>>::empty(),
    {
        let t = ConnectionTracker { current_peers: StringSet::new(), known_peers: StringSet::new() };
        proof {
            assert(t.current() =~= Set::<Seq<char>>::empty());
            assert(t.known_set() =~= Set::<Seq<char>>::empty());
        }
        t
    }

    /// Replaces the known peers with the given addresses, duplicates collapsed.
    pub fn set_known(&mut self, known_peers: Vec<String>)
        ensures
            final(self).known_set() == strings_view(known_peers@).to_set(),
            final(self).current() == old(self).current(),
    {
        self.known_peers = StringSet::from_strings(known_peers);
    }

    /// Number of peers with an active connection.
    pub fn connection_count(&self) -> (n: usize)
        ensures
            n == self.current().len(),
    {
        self.current_peers.len()
    }

    /// Number of distinct known peer addresses.
    pub fn known_peers_count(&self) -> (n: usize)
        ensures
            n == self.known_set().len(),
    {
        self.known_peers.len()
    }

    /// A copy of the set of connected peers.
    pub fn connections(&self) -> (s: StringSet)
        ensures
            s.set() == self.current(),
    {
        self.current_peers.duplicate()
    }

    /// Whether there is an active connection to `peer_id`.
    pub fn has_connection(&self, peer_id: &String) -> (r: bool)
        ensures
            r == self.current().contains(peer_id@),
    {
        self.current_peers.contains(peer_id)
    }

    /// The addresses known at build time.
    pub fn known(&self) -> (r: &Vec<String>)
        ensures
            strings_view(r@).to_set() == self.known_set(),
    {
        self.known_peers.items()
    }

    /// Records an active connection to `peer_id`.
    pub fn add_active_peer(&mut self, peer_id: String)
        ensures
            final(self).current() == old(self).current().insert(peer_id@),
            final(self).known_set() == old(self).known_set(),
    {
        self.current_peers.insert(peer_id);
    }

    /// Forgets the connection to `peer_id`.
    pub fn remove_active_peer(&mut self, peer_id: &String)
        ensures
            final(self).current() == old(self).current().remove(peer_id@),
            final(self).known_set() == old(self).known_set(),
    {
        self.current_peers.remove(peer_id);
    }
}

} // verus!
