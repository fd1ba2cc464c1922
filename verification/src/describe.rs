//! The human-readable one-line descriptions of logged events.

use vstd::prelude::*;

use crate::history::{
    IdentifyEventInfo, IdentifyEventView, KadEventInfo, KadEventView, MdnsEventInfo, MdnsEventView,
    SwarmEventInfo, SwarmEventView, mode_string, mode_text, opt_view, strings_view,
};
use crate::text::{decimal, decimal_string};

verus! {

/// The items of `v` separated by `", "`.
pub open spec fn join_comma(v: Seq<Seq<char>>) -> Seq<char>
    decreases v.len(),
{
    if v.len() == 0 {
        Seq::empty()
    } else if v.len() == 1 {
        v[0]
    } else {
        join_comma(v.drop_last()) + ", "@ + v.last()
    }
}

/// The debug rendering of a list of addresses: `[a, b, c]`.
pub open spec fn list_text(v: Seq<Seq<char>>) -> Seq<char> {
    "["@ + join_comma(v) + "]"@
}

/// The pretty debug rendering of an optional peer id.
pub open spec fn pretty_opt_peer(p: Option<Seq<char>>) -> Seq<char> {
    match p {
        None => "None"@,
        Some(id) => "Some(\n    PeerId(\n        \""@ + id + "\",\n    ),\n)"@,
    }
}

/// Description of a swarm event.
pub open spec fn swarm_text(e: SwarmEventView) -> Seq<char> {
    match e {
        SwarmEventView::Dialing { peer_id } => "DIALING Now dialing peer "@ + pretty_opt_peer(peer_id),
        SwarmEventView::NewListenAddr { listener_id, address } =>
            "NEW LISTENER New listener "@ + decimal(listener_id as nat) + " with address "@ + address,
        SwarmEventView::ListenerClosed { listener_id, addresses } =>
            "LISTENER CLOSED The listener "@ + decimal(listener_id as nat) + " at addresses "@
                + list_text(addresses) + " closed"@,
        SwarmEventView::ConnectionClosed { peer_id } =>
            "CONNECTION CLOSED The connection with "@ + peer_id + " closed"@,
        SwarmEventView::IncomingConnection { address } =>
            "INCOMING CONNECTION New connection from "@ + address,
        SwarmEventView::ConnectionEstablished { peer_id } =>
            "CONNECTION ESTABLISHED Connection established with "@ + peer_id,
    }
}

/// Description of a Kademlia event.
pub open spec fn kad_text(e: KadEventView) -> Seq<char> {
    match e {
        KadEventView::ModeChanged { new_mode } => "MODE Mode changed to "@ + mode_text(new_mode),
        KadEventView::RoutablePeer { peer, address } =>
            "ROUTABLE PEER Peer "@ + peer + " at "@ + address + " now routable"@,
        KadEventView::InboundRequest { request } => "INBOUND REQUEST "@ + request,
        KadEventView::RoutingUpdated { peer, is_new, .. } =>
            if is_new {
                "ROUTING UPDATED Routing for new peer "@ + peer + " updated"@
            } else {
                "ROUTING UPDATED Routing for peer "@ + peer + " updated"@
            },
        KadEventView::UnroutablePeer { peer } => "UNROUTABLE Peer "@ + peer + " is unroutable"@,
        KadEventView::PendingRoutablePeer { peer } =>
            "PENDING ROUTE Connection to peer "@ + peer + " established, pending addition to table"@,
        KadEventView::OutboundQueryProgressed { id } =>
            "OUTBOUND QUERY PROGRESSED Outbound query "@ + decimal(id as nat) + " has progressed"@,
    }
}

/// Description of an identify event.
pub open spec fn identify_text(e: IdentifyEventView) -> Seq<char> {
    match e {
        IdentifyEventView::Sent { peer_id } => "SENT Identification information to "@ + peer_id,
        IdentifyEventView::Pushed { peer_id, .. } => "PUSHED Identification information to "@ + peer_id,
        IdentifyEventView::Received { peer_id, .. } =>
            "RECEIVED Identification information from "@ + peer_id,
        IdentifyEventView::Error { peer_id } => "ERROR Trying to identify "@ + peer_id,
    }
}

/// Description of an mDNS event.
pub open spec fn mdns_text(e: MdnsEventView) -> Seq<char> {
    match e {
        MdnsEventView::Expired { peer_id, address } =>
            "EXPIRED Mdns record expired for "@ + peer_id + " "@ + address,
        MdnsEventView::Discovered { peer_id, address } =>
            "DISCOVERED Mdns peer "@ + peer_id + " "@ + address,
    }
}

/// `[a, b, c]` for the given addresses.
pub fn list_string(v: &Vec<String>) -> (s: String)
    ensures
        s@ == list_text(strings_view(v@)),
{
    let mut s = String::from_str("[");
    let mut i: usize = 0;
    while i < v.len()
        invariant
            i <= v.len(),
            s@ == "["@ + join_comma(strings_view(v@.subrange(0, i as int))),
        decreases v.len() - i,
    {
        let ghost prev = strings_view(v@.subrange(0, i as int));
        let ghost next = strings_view(v@.subrange(0, i + 1));
        assert(next.drop_last() =~= prev);
        assert(next.last() == v@[i as int]@);
        if i > 0 {
            s.append(", ");
        }
        s.append(v[i].as_str());
        i += 1;
    }
    assert(v@.subrange(0, v@.len() as int) =~= v@);
    s.append("]");
    s
}

/// The pretty debug rendering of an optional peer id.
pub fn pretty_opt_peer_string(p: &Option<String>) -> (s: String)
    ensures
        s@ == pretty_opt_peer(opt_view(*p)),
{
    match p {
        None => String::from_str("None"),
        Some(id) => {
            let mut s = String::from_str("Some(\n    PeerId(\n        \"");
            s.append(id.as_str());
            s.append("\",\n    ),\n)");
            s
        },
    }
}

impl SwarmEventInfo {
    /// One-line description of the event.
    pub fn describe(&self) -> (s: String)
        ensures
            s@ == swarm_text(self@),
    {
        match self {
            SwarmEventInfo::Dialing { peer_id } => {
                let mut s = String::from_str("DIALING Now dialing peer ");
                let p = pretty_opt_peer_string(peer_id);
                s.append(p.as_str());
                s
            },
            SwarmEventInfo::NewListenAddr { listener_id, address } => {
                let mut s = String::from_str("NEW LISTENER New listener ");
                let n = decimal_string(*listener_id);
                s.append(n.as_str());
                s.append(" with address ");
                s.append(address.as_str());
                s
            },
            SwarmEventInfo::ListenerClosed { listener_id, addresses } => {
                let mut s = String::from_str("LISTENER CLOSED The listener ");
                let n = decimal_string(*listener_id);
                s.append(n.as_str());
                s.append(" at addresses ");
                let l = list_string(addresses);
                s.append(l.as_str());
                s.append(" closed");
                s
            },
            SwarmEventInfo::ConnectionClosed { peer_id } => {
                let mut s = String::from_str("CONNECTION CLOSED The connection with ");
                s.append(peer_id.as_str());
                s.append(" closed");
                s
            },
            SwarmEventInfo::IncomingConnection { address } => {
                let mut s = String::from_str("INCOMING CONNECTION New connection from ");
                s.append(address.as_str());
                s
            },
            SwarmEventInfo::ConnectionEstablished { peer_id } => {
                let mut s = String::from_str("CONNECTION ESTABLISHED Connection established with ");
                s.append(peer_id.as_str());
                s
            },
        }
    }
}

impl KadEventInfo {
    /// One-line description of the event.
    pub fn describe(&self) -> (s: String)
        ensures
            s@ == kad_text(self@),
    {
        match self {
            KadEventInfo::ModeChanged { new_mode } => {
                let mut s = String::from_str("MODE Mode changed to ");
                let m = mode_string(*new_mode);
                s.append(m.as_str());
                s
            },
            KadEventInfo::RoutablePeer { peer, address } => {
                let mut s = String::from_str("ROUTABLE PEER Peer ");
                s.append(peer.as_str());
                s.append(" at ");
                s.append(address.as_str());
                s.append(" now routable");
                s
            },
            KadEventInfo::InboundRequest { request } => {
                let mut s = String::from_str("INBOUND REQUEST ");
                s.append(request.as_str());
                s
            },
            KadEventInfo::RoutingUpdated { peer, is_new, .. } => {
                let mut s = if *is_new {
                    String::from_str("ROUTING UPDATED Routing for new peer ")
                } else {
                    String::from_str("ROUTING UPDATED Routing for peer ")
                };
                s.append(peer.as_str());
                s.append(" updated");
                s
            },
            KadEventInfo::UnroutablePeer { peer } => {
                let mut s = String::from_str("UNROUTABLE Peer ");
                s.append(peer.as_str());
                s.append(" is unroutable");
                s
            },
            KadEventInfo::PendingRoutablePeer { peer } => {
                let mut s = String::from_str("PENDING ROUTE Connection to peer ");
                s.append(peer.as_str());
                s.append(" established, pending addition to table");
                s
            },
            KadEventInfo::OutboundQueryProgressed { id } => {
                let mut s = String::from_str("OUTBOUND QUERY PROGRESSED Outbound query ");
                let n = decimal_string(*id);
                s.append(n.as_str());
                s.append(" has progressed");
                s
            },
        }
    }
}

impl IdentifyEventInfo {
    /// One-line description of the event.
    pub fn describe(&self) -> (s: String)
        ensures
            s@ == identify_text(self@),
    {
        match self {
            IdentifyEventInfo::Sent { peer_id } => {
                let mut s = String::from_str("SENT Identification information to ");
                s.append(peer_id.as_str());
                s
            },
            IdentifyEventInfo::Pushed { peer_id, .. } => {
                let mut s = String::from_str("PUSHED Identification information to ");
                s.append(peer_id.as_str());
                s
            },
            IdentifyEventInfo::Received { peer_id, .. } => {
                let mut s = String::from_str("RECEIVED Identification information from ");
                s.append(peer_id.as_str());
                s
            },
            IdentifyEventInfo::Error { peer_id } => {
                let mut s = String::from_str("ERROR Trying to identify ");
                s.append(peer_id.as_str());
                s
            },
        }
    }
}

impl MdnsEventInfo {
    /// One-line description of the event.
    pub fn describe(&self) -> (s: String)
        ensures
            s@ == mdns_text(self@),
    {
        match self {
            MdnsEventInfo::Expired { peer_id, address } => {
                let mut s = String::from_str("EXPIRED Mdns record expired for ");
                s.append(peer_id.as_str());
                s.append(" ");
                s.append(address.as_str());
                s
            },
            MdnsEventInfo::Discovered { peer_id, address } => {
                let mut s = String::from_str("DISCOVERED Mdns peer ");
                s.append(peer_id.as_str());
                s.append(" ");
                s.append(address.as_str());
                s
            },
        }
    }
}

} // verus!
