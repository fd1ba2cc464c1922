//! Events published on the network's event bus.

use vstd::prelude::*;

use crate::history::{KadMode, strings_view};
use crate::info::{IdentifyInfo, IdentifyInfoView, KademliaInfo, KademliaInfoView};

verus! {

/// An event emitted by the node network. Peers and addresses are held as
/// their textual forms.
#[derive(Clone, Debug)]
pub enum NetworkEvent {
    /// A new node has started running.
    NodeRunning { peer_id: String, mode: KadMode },
    /// A node has bound a real listen address.
    NodeListening { peer_id: String, address: String },
    /// A node in the network has stopped.
    NodeStopped { peer_id: String },
    /// Two nodes have established a connection between each other.
    NodesConnected { peer_one: String, peer_two: String },
    /// A node has been discovered using mDNS.
    NodeDiscovered { peer_id: String },
    /// An mDNS record has expired.
    NodeExpired { peer_id: String },
    /// Two nodes have closed the connection between each other.
    NodesDisconnected { peer_one: String, peer_two: String },
    /// The local identify info of a node.
    IdentifyInfo { info: IdentifyInfo },
    /// The Kademlia info of a node.
    KademliaInfo { info: KademliaInfo },
    /// The records a node stores locally, as key and value.
    RecordsList { records: Vec<(String, String)> },
    /// The maximum number of nodes has been reached.
    MaxNodes,
}

/// Abstract form of [`NetworkEvent`].
pub enum NetworkEventView {
    NodeRunning { peer_id: Seq<char>, mode: KadMode },
    NodeListening { peer_id: Seq<char>, address: Seq<char> },
    NodeStopped { peer_id: Seq<char> },
    NodesConnected { peer_one: Seq<char>, peer_two: Seq<char> },
    NodeDiscovered { peer_id: Seq<char> },
    NodeExpired { peer_id: Seq<char> },
    NodesDisconnected { peer_one: Seq<char>, peer_two: Seq<char> },
    IdentifyInfo { info: IdentifyInfoView },
    KademliaInfo { info: KademliaInfoView },
    RecordsList { records: Seq<(Seq<char>, Seq<char>)> },
    MaxNodes,
}

/// The textual content of a list of key/value records.
pub open spec fn records_view(v: Seq<(String, String)>) -> Seq<(Seq<char>, Seq<char>)> {
    v.map_values(|r: (String, String)| (r.0@, r.1@))
}

impl View for NetworkEvent {
    type V = NetworkEventView;

    open spec fn view(&self) -> NetworkEventView {
        match self {
            NetworkEvent::NodeRunning { peer_id, mode } =>
                NetworkEventView::NodeRunning { peer_id: peer_id@, mode: *mode },
            NetworkEvent::NodeListening { peer_id, address } =>
                NetworkEventView::NodeListening { peer_id: peer_id@, address: address@ },
            NetworkEvent::NodeStopped { peer_id } => NetworkEventView::NodeStopped { peer_id: peer_id@ },
            NetworkEvent::NodesConnected { peer_one, peer_two } =>
                NetworkEventView::NodesConnected { peer_one: peer_one@, peer_two: peer_two@ },
            NetworkEvent::NodeDiscovered { peer_id } =>
                NetworkEventView::NodeDiscovered { peer_id: peer_id@ },
            NetworkEvent::NodeExpired { peer_id } => NetworkEventView::NodeExpired { peer_id: peer_id@ },
            NetworkEvent::NodesDisconnected { peer_one, peer_two } =>
                NetworkEventView::NodesDisconnected { peer_one: peer_one@, peer_two: peer_two@ },
            NetworkEvent::IdentifyInfo { info } => NetworkEventView::IdentifyInfo { info: info@ },
            NetworkEvent::KademliaInfo { info } => NetworkEventView::KademliaInfo { info: info@ },
            NetworkEvent::RecordsList { records } =>
                NetworkEventView::RecordsList { records: records_view(records@) },
            NetworkEvent::MaxNodes => NetworkEventView::MaxNodes,
        }
    }
}

/// The views of a list of events.
pub open spec fn events_view(v: Seq<NetworkEvent>) -> Seq<NetworkEventView> {
    v.map_values(|e: NetworkEvent| e@)
}

} // verus!
