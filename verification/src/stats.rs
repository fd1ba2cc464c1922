//! Per-node counters.

use vstd::prelude::*;

use crate::text::{decimal, decimal_string};

verus! {

/// The number of swarm events a node has received.
#[derive(Clone, Copy, Debug)]
pub struct NodeStats {
    recvd_count: u64,
}

impl View for NodeStats {
    type V = nat;

    closed spec fn view(&self) -> nat {
        self.recvd_count as nat
    }
}

impl Default for NodeStats {
    fn default() -> (s: Self)
        ensures
            s@ == 0,
    {
        NodeStats { recvd_count: 0 }
    }
}

impl NodeStats {
    /// A counter that has seen nothing yet.
    pub fn new() -> (s: Self)
        ensures
            s@ == 0,
    {
        NodeStats { recvd_count: 0 }
    }

    /// The number of swarm events received so far.
    pub fn total_recvd(&self) -> (n: u64)
        ensures
            n == self@,
    {
        self.recvd_count
    }

    /// Counts one more received swarm event.
    pub fn inc_recvd(&mut self)
        requires
            old(self)@ < u64::MAX,
        ensures
            final(self)@ == old(self)@ + 1,
    {
        self.recvd_count = self.recvd_count + 1;
    }

    /// The one-line summary shown under a node's log: `Packets received: N`
    /// followed by a newline.
    pub fn describe(&self) -> (s: String)
        ensures
            s@ == "Packets received: "@ + decimal(self@) + "\n"@,
    {
        let mut s = String::new();
        s.append("Packets received: ");
        let n = decimal_string(self.recvd_count);
        s.append(n.as_str());
        s.append("\n");
        s
    }
}

} // verus!
