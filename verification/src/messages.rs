//! Commands and replies exchanged between the terminal interface, the node
//! network and the nodes.

use vstd::prelude::*;

use crate::events::records_view;
use crate::history::KadMode;
use crate::info::{IdentifyInfo, IdentifyInfoView, KademliaInfo, KademliaInfoView};

verus! {

/// Commands that act on the swarm connection graph.
#[derive(Clone, Debug)]
pub enum SwarmCommand {
    /// `peer_one` dials `peer_two`.
    Connect { peer_one: String, peer_two: String },
    /// Remove the connection between two nodes.
    Disconnect { peer_one: String, peer_two: String },
}

/// Commands that interact with the identify protocol.
#[derive(Clone, Debug)]
pub enum IdentifyCommand {
    GetInfo { peer_id: String },
}

/// Commands that interact with the Kademlia protocol.
#[derive(Clone, Debug)]
pub enum KademliaCommand {
    GetInfo { peer_id: String },
    PutRecord { peer_id: String, key: String, value: String },
    RecordsList { peer_id: String },
}

/// Commands that manage network-wide node lifecycle.
#[derive(Clone, Debug)]
pub enum LifecycleCommand {
    /// Start a new node in the given Kademlia mode.
    Start { kad_mode: KadMode },
    /// Stop a node from running.
    Stop { peer_id: String },
    /// Register a node discovered outside the simulation.
    AddExternal { peer_id: String, address: String },
}

/// A command sent from the terminal interface to the node network.
#[derive(Clone, Debug)]
pub enum NetworkCommand {
    Swarm(SwarmCommand),
    Identify(IdentifyCommand),
    Kademlia(KademliaCommand),
    Lifecycle(LifecycleCommand),
}

/// Abstract form of [`NetworkCommand`], flattened.
pub enum NetworkCommandView {
    Connect { peer_one: Seq<char>, peer_two: Seq<char> },
    Disconnect { peer_one: Seq<char>, peer_two: Seq<char> },
    GetIdentifyInfo { peer_id: Seq<char> },
    GetKademliaInfo { peer_id: Seq<char> },
    PutRecord { peer_id: Seq<char>, key: Seq<char>, value: Seq<char> },
    RecordsList { peer_id: Seq<char> },
    Start { kad_mode: KadMode },
    Stop { peer_id: Seq<char> },
    AddExternal { peer_id: Seq<char>, address: Seq<char> },
}

impl View for NetworkCommand {
    type V = NetworkCommandView;

    open spec fn view(&self) -> NetworkCommandView {
        match self {
            NetworkCommand::Swarm(SwarmCommand::Connect { peer_one, peer_two }) =>
                NetworkCommandView::Connect { peer_one: peer_one@, peer_two: peer_two@ },
            NetworkCommand::Swarm(SwarmCommand::Disconnect { peer_one, peer_two }) =>
                NetworkCommandView::Disconnect { peer_one: peer_one@, peer_two: peer_two@ },
            NetworkCommand::Identify(IdentifyCommand::GetInfo { peer_id }) =>
                NetworkCommandView::GetIdentifyInfo { peer_id: peer_id@ },
            NetworkCommand::Kademlia(KademliaCommand::GetInfo { peer_id }) =>
                NetworkCommandView::GetKademliaInfo { peer_id: peer_id@ },
            NetworkCommand::Kademlia(KademliaCommand::PutRecord { peer_id, key, value }) =>
                NetworkCommandView::PutRecord { peer_id: peer_id@, key: key@, value: value@ },
            NetworkCommand::Kademlia(KademliaCommand::RecordsList { peer_id }) =>
                NetworkCommandView::RecordsList { peer_id: peer_id@ },
            NetworkCommand::Lifecycle(LifecycleCommand::Start { kad_mode }) =>
                NetworkCommandView::Start { kad_mode: *kad_mode },
            NetworkCommand::Lifecycle(LifecycleCommand::Stop { peer_id }) =>
                NetworkCommandView::Stop { peer_id: peer_id@ },
            NetworkCommand::Lifecycle(LifecycleCommand::AddExternal { peer_id, address }) =>
                NetworkCommandView::AddExternal { peer_id: peer_id@, address: address@ },
        }
    }
}

/// A command sent to a node by the node network.
#[derive(Clone, Debug)]
pub enum NodeCommand {
    /// Establish a connection with the peer at the given address.
    ConnectTo { peer: String },
    /// Disconnect from the given peer.
    DisconnectFrom { peer: String },
    /// Return the local identify info.
    GetIdentifyInfo,
    /// Return the Kademlia info.
    GetKademliaInfo,
    /// Put a new record in the DHT.
    PutRecord { key: String, value: String },
    /// Look a record up in the DHT.
    GetRecord { key: String },
    /// List the locally stored records.
    ListRecords,
    /// Stop the node.
    Stop,
}

/// Abstract form of [`NodeCommand`].
pub enum NodeCommandView {
    ConnectTo { peer: Seq<char> },
    DisconnectFrom { peer: Seq<char> },
    GetIdentifyInfo,
    GetKademliaInfo,
    PutRecord { key: Seq<char>, value: Seq<char> },
    GetRecord { key: Seq<char> },
    ListRecords,
    Stop,
}

impl View for NodeCommand {
    type V = NodeCommandView;

    open spec fn view(&self) -> NodeCommandView {
        match self {
            NodeCommand::ConnectTo { peer } => NodeCommandView::ConnectTo { peer: peer@ },
            NodeCommand::DisconnectFrom { peer } => NodeCommandView::DisconnectFrom { peer: peer@ },
            NodeCommand::GetIdentifyInfo => NodeCommandView::GetIdentifyInfo,
            NodeCommand::GetKademliaInfo => NodeCommandView::GetKademliaInfo,
            NodeCommand::PutRecord { key, value } => NodeCommandView::PutRecord { key: key@, value: value@ },
            NodeCommand::GetRecord { key } => NodeCommandView::GetRecord { key: key@ },
            NodeCommand::ListRecords => NodeCommandView::ListRecords,
            NodeCommand::Stop => NodeCommandView::Stop,
        }
    }
}

/// The reply of a node to a [`NodeCommand`].
#[derive(Clone, Debug)]
pub enum NodeResponse {
    IdentifyInfo { info: IdentifyInfo },
    KademliaInfo { info: KademliaInfo },
    Disconnected { peer: String },
    Dialed { addr: String },
    RecordPlaced,
    GetRecordPlaced,
    RecordsList { records: Vec<(String, String)> },
    Stopped,
    Failed,
}

/// Abstract form of [`NodeResponse`].
pub enum NodeResponseView {
    IdentifyInfo { info: IdentifyInfoView },
    KademliaInfo { info: KademliaInfoView },
    Disconnected { peer: Seq<char> },
    Dialed { addr: Seq<char> },
    RecordPlaced,
    GetRecordPlaced,
    RecordsList { records: Seq<(Seq<char>, Seq<char>)> },
    Stopped,
    Failed,
}

impl View for NodeResponse {
    type V = NodeResponseView;

    open spec fn view(&self) -> NodeResponseView {
        match self {
            NodeResponse::IdentifyInfo { info } => NodeResponseView::IdentifyInfo { info: info@ },
            NodeResponse::KademliaInfo { info } => NodeResponseView::KademliaInfo { info: info@ },
            NodeResponse::Disconnected { peer } => NodeResponseView::Disconnected { peer: peer@ },
            NodeResponse::Dialed { addr } => NodeResponseView::Dialed { addr: addr@ },
            NodeResponse::RecordPlaced => NodeResponseView::RecordPlaced,
            NodeResponse::GetRecordPlaced => NodeResponseView::GetRecordPlaced,
            NodeResponse::RecordsList { records } =>
                NodeResponseView::RecordsList { records: records_view(records@) },
            NodeResponse::Stopped => NodeResponseView::Stopped,
            NodeResponse::Failed => NodeResponseView::Failed,
        }
    }
}

} // verus!
