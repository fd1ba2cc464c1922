//! The swarm events a node receives, held as plain values.

use vstd::prelude::*;

use crate::addr::{AddrPart, AddrPartView, parts_view};
use crate::history::{KadMode, PeerIdentity, PeerIdentityView, opt_view, strings_view};

verus! {

/// The local role of a connection and the address it is reached at.
#[derive(Clone, Debug)]
pub enum Endpoint {
    /// We dialed `address`.
    Dialer { address: String },
    /// We accepted a connection on `local_addr` from `send_back_addr`.
    Listener { local_addr: String, send_back_addr: String },
}

/// Abstract form of [`Endpoint`].
pub enum EndpointView {
    Dialer { address: Seq<char> },
    Listener { local_addr: Seq<char>, send_back_addr: Seq<char> },
}

impl View for Endpoint {
    type V = EndpointView;

    open spec fn view(&self) -> EndpointView {
        match self {
            Endpoint::Dialer { address } => EndpointView::Dialer { address: address@ },
            Endpoint::Listener { local_addr, send_back_addr } =>
                EndpointView::Listener { local_addr: local_addr@, send_back_addr: send_back_addr@ },
        }
    }
}

/// An identify protocol event.
#[derive(Clone, Debug)]
pub enum IdentifyInput {
    Received { peer_id: String, info: PeerIdentity },
    Sent { peer_id: String },
    Pushed { peer_id: String, info: PeerIdentity },
    /// `timeout` tells whether the failure was a timeout.
    Error { peer_id: String, timeout: bool },
}

/// Abstract form of [`IdentifyInput`].
pub enum IdentifyInputView {
    Received { peer_id: Seq<char>, info: PeerIdentityView },
    Sent { peer_id: Seq<char> },
    Pushed { peer_id: Seq<char>, info: PeerIdentityView },
    Error { peer_id: Seq<char>, timeout: bool },
}

impl View for IdentifyInput {
    type V = IdentifyInputView;

    open spec fn view(&self) -> IdentifyInputView {
        match self {
            IdentifyInput::Received { peer_id, info } =>
                IdentifyInputView::Received { peer_id: peer_id@, info: info@ },
            IdentifyInput::Sent { peer_id } => IdentifyInputView::Sent { peer_id: peer_id@ },
            IdentifyInput::Pushed { peer_id, info } =>
                IdentifyInputView::Pushed { peer_id: peer_id@, info: info@ },
            IdentifyInput::Error { peer_id, timeout } =>
                IdentifyInputView::Error { peer_id: peer_id@, timeout: *timeout },
        }
    }
}

/// The outcome carried by a progressed outbound Kademlia query.
#[derive(Clone, Debug)]
pub enum QueryOutcome {
    BootstrapOk { peer: String, num_remaining: u32 },
    BootstrapErr,
    GetClosestPeersOk,
    GetClosestPeersErr,
    /// Providers were found; listed in the order they were reported.
    ProvidersFound { providers: Vec<String> },
    /// The lookup ended without further records; the closest peers seen.
    ProvidersFinished { closest_peers: Vec<String> },
    GetProvidersErr,
    StartProvidingOk,
    StartProvidingErr,
    RepublishRecord,
    GetRecordFound,
    GetRecordFinished,
    GetRecordErr,
    PutRecordOk,
    PutRecordErr,
    RepublishProvider,
}

/// Abstract form of [`QueryOutcome`].
pub enum QueryOutcomeView {
    BootstrapOk { peer: Seq<char>, num_remaining: u32 },
    BootstrapErr,
    GetClosestPeersOk,
    GetClosestPeersErr,
    ProvidersFound { providers: Seq<Seq<char>> },
    ProvidersFinished { closest_peers: Seq<Seq<char>> },
    GetProvidersErr,
    StartProvidingOk,
    StartProvidingErr,
    RepublishRecord,
    GetRecordFound,
    GetRecordFinished,
    GetRecordErr,
    PutRecordOk,
    PutRecordErr,
    RepublishProvider,
}

impl View for QueryOutcome {
    type V = QueryOutcomeView;

    open spec fn view(&self) -> QueryOutcomeView {
        match self {
            QueryOutcome::BootstrapOk { peer, num_remaining } =>
                QueryOutcomeView::BootstrapOk { peer: peer@, num_remaining: *num_remaining },
            QueryOutcome::BootstrapErr => QueryOutcomeView::BootstrapErr,
            QueryOutcome::GetClosestPeersOk => QueryOutcomeView::GetClosestPeersOk,
            QueryOutcome::GetClosestPeersErr => QueryOutcomeView::GetClosestPeersErr,
            QueryOutcome::ProvidersFound { providers } =>
                QueryOutcomeView::ProvidersFound { providers: strings_view(providers@) },
            QueryOutcome::ProvidersFinished { closest_peers } =>
                QueryOutcomeView::ProvidersFinished { closest_peers: strings_view(closest_peers@) },
            QueryOutcome::GetProvidersErr => QueryOutcomeView::GetProvidersErr,
            QueryOutcome::StartProvidingOk => QueryOutcomeView::StartProvidingOk,
            QueryOutcome::StartProvidingErr => QueryOutcomeView::StartProvidingErr,
            QueryOutcome::RepublishRecord => QueryOutcomeView::RepublishRecord,
            QueryOutcome::GetRecordFound => QueryOutcomeView::GetRecordFound,
            QueryOutcome::GetRecordFinished => QueryOutcomeView::GetRecordFinished,
            QueryOutcome::GetRecordErr => QueryOutcomeView::GetRecordErr,
            QueryOutcome::PutRecordOk => QueryOutcomeView::PutRecordOk,
            QueryOutcome::PutRecordErr => QueryOutcomeView::PutRecordErr,
            QueryOutcome::RepublishProvider => QueryOutcomeView::RepublishProvider,
        }
    }
}

/// A Kademlia event.
#[derive(Clone, Debug)]
pub enum KadInput {
    /// `request` is the debug rendering of the request.
    InboundRequest { request: String },
    OutboundQueryProgressed { id: u64, result: QueryOutcome, last: bool },
    RoutingUpdated { peer: String, addresses: Vec<String>, is_new_peer: bool, old_peer: Option<String> },
    RoutablePeer { peer: String, address: String },
    UnroutablePeer { peer: String },
    PendingRoutablePeer { peer: String, address: String },
    ModeChanged { new_mode: KadMode },
}

/// Abstract form of [`KadInput`].
pub enum KadInputView {
    InboundRequest { request: Seq<char> },
    OutboundQueryProgressed { id: u64, result: QueryOutcomeView, last: bool },
    RoutingUpdated {
        peer: Seq<char>,
        addresses: Seq<Seq<char>>,
        is_new_peer: bool,
        old_peer: Option<Seq<char>>,
    },
    RoutablePeer { peer: Seq<char>, address: Seq<char> },
    UnroutablePeer { peer: Seq<char> },
    PendingRoutablePeer { peer: Seq<char>, address: Seq<char> },
    ModeChanged { new_mode: KadMode },
}

impl View for KadInput {
    type V = KadInputView;

    open spec fn view(&self) -> KadInputView {
        match self {
            KadInput::InboundRequest { request } => KadInputView::InboundRequest { request: request@ },
            KadInput::OutboundQueryProgressed { id, result, last } =>
                KadInputView::OutboundQueryProgressed { id: *id, result: result@, last: *last },
            KadInput::RoutingUpdated { peer, addresses, is_new_peer, old_peer } =>
                KadInputView::RoutingUpdated {
                    peer: peer@,
                    addresses: strings_view(addresses@),
                    is_new_peer: *is_new_peer,
                    old_peer: opt_view(*old_peer),
                },
            KadInput::RoutablePeer { peer, address } =>
                KadInputView::RoutablePeer { peer: peer@, address: address@ },
            KadInput::UnroutablePeer { peer } => KadInputView::UnroutablePeer { peer: peer@ },
            KadInput::PendingRoutablePeer { peer, address } =>
                KadInputView::PendingRoutablePeer { peer: peer@, address: address@ },
            KadInput::ModeChanged { new_mode } => KadInputView::ModeChanged { new_mode: *new_mode },
        }
    }
}

/// One mDNS record: a peer and an address it was seen at.
#[derive(Clone, Debug)]
pub struct MdnsRecord {
    pub peer_id: String,
    /// The address in textual form.
    pub address: String,
    /// The same address as its components.
    pub parts: Vec<AddrPart>,
}

/// Abstract form of [`MdnsRecord`].
pub struct MdnsRecordView {
    pub peer_id: Seq<char>,
    pub address: Seq<char>,
    pub parts: Seq<AddrPartView>,
}

impl View for MdnsRecord {
    type V = MdnsRecordView;

    open spec fn view(&self) -> MdnsRecordView {
        MdnsRecordView { peer_id: self.peer_id@, address: self.address@, parts: parts_view(self.parts@) }
    }
}

/// An mDNS event, with the records it reports.
#[derive(Clone, Debug)]
pub enum MdnsInput {
    Discovered(Vec<MdnsRecord>),
    Expired(Vec<MdnsRecord>),
}

/// Abstract form of [`MdnsInput`].
pub enum MdnsInputView {
    Discovered(Seq<MdnsRecordView>),
    Expired(Seq<MdnsRecordView>),
}

impl View for MdnsInput {
    type V = MdnsInputView;

    open spec fn view(&self) -> MdnsInputView {
        match self {
            MdnsInput::Discovered(v) => MdnsInputView::Discovered(v@.map_values(|r: MdnsRecord| r@)),
            MdnsInput::Expired(v) => MdnsInputView::Expired(v@.map_values(|r: MdnsRecord| r@)),
        }
    }
}

/// A swarm event of a node.
#[derive(Clone, Debug)]
pub enum SwarmInput {
    Dialing { peer_id: Option<String> },
    IncomingConnection { send_back_addr: String },
    NewListenAddr { listener_id: u64, address: String },
    ConnectionEstablished { peer_id: String, endpoint: Endpoint },
    ConnectionClosed { peer_id: String, endpoint: Endpoint, num_established: u32 },
    ListenerClosed { listener_id: u64, addresses: Vec<String> },
    IncomingConnectionError { peer_id: Option<String> },
    OutgoingConnectionError { peer_id: Option<String> },
    Identify(IdentifyInput),
    Kademlia(KadInput),
    Mdns(MdnsInput),
    /// Any other swarm event; no handler claims it.
    Other,
}

/// Abstract form of [`SwarmInput`].
pub enum SwarmInputView {
    Dialing { peer_id: Option<Seq<char>> },
    IncomingConnection { send_back_addr: Seq<char> },
    NewListenAddr { listener_id: u64, address: Seq<char> },
    ConnectionEstablished { peer_id: Seq<char>, endpoint: EndpointView },
    ConnectionClosed { peer_id: Seq<char>, endpoint: EndpointView, num_established: u32 },
    ListenerClosed { listener_id: u64, addresses: Seq<Seq<char>> },
    IncomingConnectionError { peer_id: Option<Seq<char>> },
    OutgoingConnectionError { peer_id: Option<Seq<char>> },
    Identify(IdentifyInputView),
    Kademlia(KadInputView),
    Mdns(MdnsInputView),
    Other,
}

impl View for SwarmInput {
    type V = SwarmInputView;

    open spec fn view(&self) -> SwarmInputView {
        match self {
            SwarmInput::Dialing { peer_id } => SwarmInputView::Dialing { peer_id: opt_view(*peer_id) },
            SwarmInput::IncomingConnection { send_back_addr } =>
                SwarmInputView::IncomingConnection { send_back_addr: send_back_addr@ },
            SwarmInput::NewListenAddr { listener_id, address } =>
                SwarmInputView::NewListenAddr { listener_id: *listener_id, address: address@ },
            SwarmInput::ConnectionEstablished { peer_id, endpoint } =>
                SwarmInputView::ConnectionEstablished { peer_id: peer_id@, endpoint: endpoint@ },
            SwarmInput::ConnectionClosed { peer_id, endpoint, num_established } =>
                SwarmInputView::ConnectionClosed {
                    peer_id: peer_id@,
                    endpoint: endpoint@,
                    num_established: *num_established,
                },
            SwarmInput::ListenerClosed { listener_id, addresses } =>
                SwarmInputView::ListenerClosed {
                    listener_id: *listener_id,
                    addresses: strings_view(addresses@),
                },
            SwarmInput::IncomingConnectionError { peer_id } =>
                SwarmInputView::IncomingConnectionError { peer_id: opt_view(*peer_id) },
            SwarmInput::OutgoingConnectionError { peer_id } =>
                SwarmInputView::OutgoingConnectionError { peer_id: opt_view(*peer_id) },
            SwarmInput::Identify(e) => SwarmInputView::Identify(e@),
            SwarmInput::Kademlia(e) => SwarmInputView::Kademlia(e@),
            SwarmInput::Mdns(e) => SwarmInputView::Mdns(e@),
            SwarmInput::Other => SwarmInputView::Other,
        }
    }
}

} // verus!
