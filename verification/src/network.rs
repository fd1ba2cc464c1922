//! The node network's routing of commands from the terminal interface: who
//! a command goes to, what the reply becomes, and the network's address book.

use vstd::prelude::*;

use crate::events::{NetworkEvent, NetworkEventView, records_view};
use crate::history::KadMode;
use crate::messages::{
    IdentifyCommand, KademliaCommand, LifecycleCommand, NetworkCommand, NetworkCommandView, NodeCommand,
    NodeCommandView, NodeResponse, NodeResponseView, SwarmCommand,
};
use crate::strmap::StringMap;
use crate::strset::StringSet;

verus! {

/// Transport the nodes operate on.
#[derive(Clone, Copy, Debug, PartialEq, Eq, Structural)]
pub enum TransportMode {
    Memory,
    Tcp,
}

impl Default for TransportMode {
    fn default() -> (t: Self)
        ensures
            t == TransportMode::Memory,
    {
        TransportMode::Memory
    }
}

/// How a node's reply to a forwarded command becomes a network event.
#[derive(Clone, Debug)]
pub enum Translate {
    /// The reply is not published.
    Nothing,
    /// Identify info replies are published as such.
    IdentifyInfo,
    /// Kademlia info replies are published as such.
    KademliaInfo,
    /// Record lists are published as such.
    RecordsList,
    /// A disconnection of `peer_one` from the replied peer is published.
    Disconnected { peer_one: String },
}

/// Abstract form of [`Translate`].
pub enum TranslateView {
    Nothing,
    IdentifyInfo,
    KademliaInfo,
    RecordsList,
    Disconnected { peer_one: Seq<char> },
}

impl View for Translate {
    type V = TranslateView;

    open spec fn view(&self) -> TranslateView {
        match self {
            Translate::Nothing => TranslateView::Nothing,
            Translate::IdentifyInfo => TranslateView::IdentifyInfo,
            Translate::KademliaInfo => TranslateView::KademliaInfo,
            Translate::RecordsList => TranslateView::RecordsList,
            Translate::Disconnected { peer_one } => TranslateView::Disconnected { peer_one: peer_one@ },
        }
    }
}

/// The event a reply becomes, if any.
pub open spec fn translate_spec(t: TranslateView, r: NodeResponseView) -> Option<NetworkEventView> {
    match (t, r) {
        (TranslateView::IdentifyInfo, NodeResponseView::IdentifyInfo { info }) =>
            Some(NetworkEventView::IdentifyInfo { info }),
        (TranslateView::KademliaInfo, NodeResponseView::KademliaInfo { info }) =>
            Some(NetworkEventView::KademliaInfo { info }),
        (TranslateView::RecordsList, NodeResponseView::RecordsList { records }) =>
            Some(NetworkEventView::RecordsList { records }),
        (TranslateView::Disconnected { peer_one }, NodeResponseView::Disconnected { peer }) =>
            Some(NetworkEventView::NodesDisconnected { peer_one, peer_two: peer }),
        _ => None,
    }
}

/// Turns a node's reply into the event to publish, if any.
pub fn translate(t: Translate, r: NodeResponse) -> (e: Option<NetworkEvent>)
    ensures
        match e {
            Some(ev) => translate_spec(t@, r@) == Some(ev@),
            None => translate_spec(t@, r@) is None,
        },
{
    match (t, r) {
        (Translate::IdentifyInfo, NodeResponse::IdentifyInfo { info }) => Some(NetworkEvent::IdentifyInfo { info }),
        (Translate::KademliaInfo, NodeResponse::KademliaInfo { info }) => Some(NetworkEvent::KademliaInfo { info }),
        (Translate::RecordsList, NodeResponse::RecordsList { records }) =>
            Some(NetworkEvent::RecordsList { records }),
        (Translate::Disconnected { peer_one }, NodeResponse::Disconnected { peer }) =>
            Some(NetworkEvent::NodesDisconnected { peer_one, peer_two: peer }),
        _ => None,
    }
}

/// What the network does for a command from the terminal interface.
#[derive(Debug)]
pub enum CommandPlan {
    /// Send `command` to node `target` and publish the reply as `translate`
    /// says. With `forget`, the target leaves the address book once the
    /// request is over, whatever the reply.
    Request { target: String, command: NodeCommand, translate: Translate, forget: bool },
    /// Build and start a new node in the given mode.
    StartNode { kad_mode: KadMode },
    /// The network is full: publish that the maximum number of nodes is reached.
    RejectMaxNodes,
    /// Nothing more to do.
    Done,
}

/// Abstract form of [`CommandPlan`].
pub enum CommandPlanView {
    Request { target: Seq<char>, command: NodeCommandView, translate: TranslateView, forget: bool },
    StartNode { kad_mode: KadMode },
    RejectMaxNodes,
    Done,
}

impl View for CommandPlan {
    type V = CommandPlanView;

    open spec fn view(&self) -> CommandPlanView {
        match self {
            CommandPlan::Request { target, command, translate, forget } => CommandPlanView::Request {
                target: target@,
                command: command@,
                translate: translate@,
                forget: *forget,
            },
            CommandPlan::StartNode { kad_mode } => CommandPlanView::StartNode { kad_mode: *kad_mode },
            CommandPlan::RejectMaxNodes => CommandPlanView::RejectMaxNodes,
            CommandPlan::Done => CommandPlanView::Done,
        }
    }
}

/// The node network's bookkeeping: its nodes, their addresses and its limits.
pub struct NetworkBook {
    /// Nodes of the simulation that take commands.
    pub nodes: StringSet,
    /// Known listen address of each node, external ones included.
    pub addresses: StringMap,
    /// The maximum number of nodes.
    pub max_nodes: u8,
    /// Transport mode of the nodes.
    pub transport: TransportMode,
    /// IPv4 address nodes bind to in TCP mode.
    pub bind_address: Option<(u8, u8, u8, u8)>,
}

impl NetworkBook {
    /// The nodes that take commands.
    pub open spec fn node_set(&self) -> Set<Seq<char>> {
        self.nodes.set()
    }

    /// The address book.
    pub open spec fn address_map(&self) -> Map<Seq<char>, Seq<char>> {
        self.addresses@
    }

    /// An empty network.
    pub fn new(max_nodes: u8, transport: TransportMode, bind_address: Option<(u8, u8, u8, u8)>) -> (b: Self)
        ensures
            b.node_set() == Set::<Seq<char>>::empty(),
            b.address_map() == Map::<Seq<char>, Seq<char>>::empty(),
            b.max_nodes == max_nodes,
            b.transport == transport,
            b.bind_address == bind_address,
    {
        let b = NetworkBook {
            nodes: StringSet::new(),
            addresses: StringMap::new(),
            max_nodes,
            transport,
            bind_address,
        };
        assert(b.node_set() =~= Set::<Seq<char>>::empty());
        b
    }

    /// Number of nodes that take commands.
    pub fn node_count(&self) -> (n: usize)
        ensures
            n == self.node_set().len(),
    {
        self.nodes.len()
    }

    /// Whether `peer` is a node that takes commands.
    pub fn has_node(&self, peer: &String) -> (r: bool)
        ensures
            r == self.node_set().contains(peer@),
    {
        self.nodes.contains(peer)
    }

    /// The known address of `peer`.
    pub fn address_of(&self, peer: &String) -> (r: Option<String>)
        ensures
            match r {
                Some(a) => self.address_map().contains_key(peer@) && self.address_map()[peer@] == a@,
                None => !self.address_map().contains_key(peer@),
            },
    {
        self.addresses.get(peer)
    }

    /// Records a newly built node and the address it will listen on.
    pub fn register_node(&mut self, peer: String, listen_address: String)
        ensures
            final(self).node_set() == old(self).node_set().insert(peer@),
            final(self).address_map() == old(self).address_map().insert(peer@, listen_address@),
            final(self).max_nodes == old(self).max_nodes,
            final(self).transport == old(self).transport,
            final(self).bind_address == old(self).bind_address,
    {
        let key = peer.clone();
        self.nodes.insert(peer);
        self.addresses.insert(key, listen_address);
    }

    /// Records the address a node has actually bound.
    pub fn update_address(&mut self, peer: String, address: String)
        ensures
            final(self).node_set() == old(self).node_set(),
            final(self).address_map() == old(self).address_map().insert(peer@, address@),
            final(self).max_nodes == old(self).max_nodes,
            final(self).transport == old(self).transport,
            final(self).bind_address == old(self).bind_address,
    {
        self.addresses.insert(peer, address);
    }

    /// Forgets a stopped node and its address.
    pub fn forget_node(&mut self, peer: &String)
        ensures
            final(self).node_set() == old(self).node_set().remove(peer@),
            final(self).address_map() == old(self).address_map().remove(peer@),
            final(self).max_nodes == old(self).max_nodes,
            final(self).transport == old(self).transport,
            final(self).bind_address == old(self).bind_address,
    {
        self.nodes.remove(peer);
        self.addresses.remove(peer);
    }

    /// Decides what to do for a command from the terminal interface. Adding
    /// an external node only records its address.
    pub fn plan_command(&mut self, cmd: NetworkCommand) -> (p: CommandPlan)
        ensures
            p@ == match cmd@ {
                NetworkCommandView::Connect { peer_one, peer_two } =>
                    if old(self).address_map().contains_key(peer_two) {
                        CommandPlanView::Request {
                            target: peer_one,
                            command: NodeCommandView::ConnectTo { peer: old(self).address_map()[peer_two] },
                            translate: TranslateView::Nothing,
                            forget: false,
                        }
                    } else {
                        CommandPlanView::Done
                    },
                NetworkCommandView::Disconnect { peer_one, peer_two } => CommandPlanView::Request {
                    target: peer_one,
                    command: NodeCommandView::DisconnectFrom { peer: peer_two },
                    translate: TranslateView::Disconnected { peer_one },
                    forget: false,
                },
                NetworkCommandView::GetIdentifyInfo { peer_id } => CommandPlanView::Request {
                    target: peer_id,
                    command: NodeCommandView::GetIdentifyInfo,
                    translate: TranslateView::IdentifyInfo,
                    forget: false,
                },
                NetworkCommandView::GetKademliaInfo { peer_id } => CommandPlanView::Request {
                    target: peer_id,
                    command: NodeCommandView::GetKademliaInfo,
                    translate: TranslateView::KademliaInfo,
                    forget: false,
                },
                NetworkCommandView::PutRecord { peer_id, key, value } => CommandPlanView::Request {
                    target: peer_id,
                    command: NodeCommandView::PutRecord { key, value },
                    translate: TranslateView::Nothing,
                    forget: false,
                },
                NetworkCommandView::RecordsList { peer_id } => CommandPlanView::Request {
                    target: peer_id,
                    command: NodeCommandView::ListRecords,
                    translate: TranslateView::RecordsList,
                    forget: false,
                },
                NetworkCommandView::Start { kad_mode } =>
                    if old(self).node_set().len() >= old(self).max_nodes {
                        CommandPlanView::RejectMaxNodes
                    } else {
                        CommandPlanView::StartNode { kad_mode }
                    },
                NetworkCommandView::Stop { peer_id } => CommandPlanView::Request {
                    target: peer_id,
                    command: NodeCommandView::Stop,
                    translate: TranslateView::Nothing,
                    forget: true,
                },
                NetworkCommandView::AddExternal { .. } => CommandPlanView::Done,
            },
            final(self).address_map() == match cmd@ {
                NetworkCommandView::AddExternal { peer_id, address } =>
                    old(self).address_map().insert(peer_id, address),
                _ => old(self).address_map(),
            },
            final(self).node_set() == old(self).node_set(),
            final(self).max_nodes == old(self).max_nodes,
            final(self).transport == old(self).transport,
            final(self).bind_address == old(self).bind_address,
    {
        match cmd {
            NetworkCommand::Swarm(SwarmCommand::Connect { peer_one, peer_two }) => {
                match self.address_of(&peer_two) {
                    Some(addr) => CommandPlan::Request {
                        target: peer_one,
                        command: NodeCommand::ConnectTo { peer: addr },
                        translate: Translate::Nothing,
                        forget: false,
                    },
                    None => CommandPlan::Done,
                }
            },
            NetworkCommand::Swarm(SwarmCommand::Disconnect { peer_one, peer_two }) => {
                let p1 = peer_one.clone();
                CommandPlan::Request {
                    target: peer_one,
                    command: NodeCommand::DisconnectFrom { peer: peer_two },
                    translate: Translate::Disconnected { peer_one: p1 },
                    forget: false,
                }
            },
            NetworkCommand::Identify(IdentifyCommand::GetInfo { peer_id }) => CommandPlan::Request {
                target: peer_id,
                command: NodeCommand::GetIdentifyInfo,
                translate: Translate::IdentifyInfo,
                forget: false,
            },
            NetworkCommand::Kademlia(KademliaCommand::GetInfo { peer_id }) => CommandPlan::Request {
                target: peer_id,
                command: NodeCommand::GetKademliaInfo,
                translate: Translate::KademliaInfo,
                forget: false,
            },
            NetworkCommand::Kademlia(KademliaCommand::PutRecord { peer_id, key, value }) => CommandPlan::Request {
                target: peer_id,
                command: NodeCommand::PutRecord { key, value },
                translate: Translate::Nothing,
                forget: false,
            },
            NetworkCommand::Kademlia(KademliaCommand::RecordsList { peer_id }) => CommandPlan::Request {
                target: peer_id,
                command: NodeCommand::ListRecords,
                translate: Translate::RecordsList,
                forget: false,
            },
            NetworkCommand::Lifecycle(LifecycleCommand::Start { kad_mode }) => {
                if self.node_count() >= self.max_nodes as usize {
                    CommandPlan::RejectMaxNodes
                } else {
                    CommandPlan::StartNode { kad_mode }
                }
            },
            NetworkCommand::Lifecycle(LifecycleCommand::Stop { peer_id }) => CommandPlan::Request {
                target: peer_id,
                command: NodeCommand::Stop,
                translate: Translate::Nothing,
                forget: true,
            },
            NetworkCommand::Lifecycle(LifecycleCommand::AddExternal { peer_id, address }) => {
                self.addresses.insert(peer_id, address);
                CommandPlan::Done
            },
        }
    }
}

} // verus!
