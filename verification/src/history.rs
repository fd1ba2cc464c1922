//! A node's record of the swarm events it has seen, kept per protocol and in
//! one combined log, each bounded so that only the most recent survive.

use std::collections::VecDeque;

use vstd::prelude::*;

use crate::text::{clone_strings, decimal, decimal_string};

verus! {

/// How many entries each per-protocol log keeps.
pub const MAX_SIZE: usize = 250;

/// How many entries the combined log keeps.
pub const ALL_MAX_SIZE: usize = 1000;

/// Time elapsed since a node started, as whole seconds and nanoseconds.
#[derive(Clone, Copy, Debug, PartialEq, Eq, Structural)]
pub struct Elapsed {
    pub secs: u64,
    pub nanos: u32,
}

/// The Kademlia mode of a node.
#[derive(Clone, Copy, Debug, PartialEq, Eq, Structural)]
pub enum KadMode {
    Client,
    Server,
}

/// The display name of a Kademlia mode.
pub open spec fn mode_text(m: KadMode) -> Seq<char> {
    match m {
        KadMode::Client => "client"@,
        KadMode::Server => "server"@,
    }
}

/// The display name of a Kademlia mode.
pub fn mode_string(m: KadMode) -> (s: String)
    ensures
        s@ == mode_text(m),
{
    match m {
        KadMode::Client => String::from_str("client"),
        KadMode::Server => String::from_str("server"),
    }
}

/// Swarm-level events worth logging. Peers and addresses are held as their
/// textual forms.
#[derive(Clone, Debug)]
pub enum SwarmEventInfo {
    ConnectionEstablished { peer_id: String },
    ConnectionClosed { peer_id: String },
    IncomingConnection { address: String },
    ListenerClosed { listener_id: u64, addresses: Vec<String> },
    NewListenAddr { listener_id: u64, address: String },
    Dialing { peer_id: Option<String> },
}

/// Kademlia events worth logging.
#[derive(Clone, Debug)]
pub enum KadEventInfo {
    /// `request` is the debug rendering of the inbound request.
    InboundRequest { request: String },
    RoutingUpdated { peer: String, is_new: bool, addresses: Vec<String>, old_peer: Option<String> },
    RoutablePeer { peer: String, address: String },
    UnroutablePeer { peer: String },
    PendingRoutablePeer { peer: String },
    OutboundQueryProgressed { id: u64 },
    ModeChanged { new_mode: KadMode },
}

/// What a remote peer told about itself through the identify protocol.
#[derive(Clone, Debug)]
pub struct PeerIdentity {
    pub protocol_version: String,
    pub agent_version: String,
    pub listen_addrs: Vec<String>,
}

/// Identify events worth logging.
#[derive(Clone, Debug)]
pub enum IdentifyEventInfo {
    Received { peer_id: String, info: PeerIdentity },
    Sent { peer_id: String },
    Pushed { peer_id: String, info: PeerIdentity },
    Error { peer_id: String },
}

/// mDNS events worth logging.
#[derive(Clone, Debug)]
pub enum MdnsEventInfo {
    Discovered { peer_id: String, address: String },
    Expired { peer_id: String, address: String },
}

/// One entry of the combined log.
#[derive(Clone, Debug)]
pub enum LogMessage {
    Swarm { event: SwarmEventInfo, at: Elapsed },
    Kad { event: KadEventInfo, at: Elapsed },
    Identify { event: IdentifyEventInfo, at: Elapsed },
    Mdns { event: MdnsEventInfo, at: Elapsed },
}

/// The textual content of an optional string.
pub open spec fn opt_view(o: Option<String>) -> Option<Seq<char>> {
    match o {
        Some(s) => Some(s@),
        None => None,
    }
}

/// The textual content of a list of strings.
pub open spec fn strings_view(v: Seq<String>) -> Seq<Seq<char>> {
    v.map_values(|s: String| s@)
}

/// Abstract form of [`SwarmEventInfo`].
pub enum SwarmEventView {
    ConnectionEstablished { peer_id: Seq<char> },
    ConnectionClosed { peer_id: Seq<char> },
    IncomingConnection { address: Seq<char> },
    ListenerClosed { listener_id: u64, addresses: Seq<Seq<char>> },
    NewListenAddr { listener_id: u64, address: Seq<char> },
    Dialing { peer_id: Option<Seq<char>> },
}

/// Abstract form of [`KadEventInfo`].
pub enum KadEventView {
    InboundRequest { request: Seq<char> },
    RoutingUpdated {
        peer: Seq<char>,
        is_new: bool,
        addresses: Seq<Seq<char>>,
        old_peer: Option<Seq<char>>,
    },
    RoutablePeer { peer: Seq<char>, address: Seq<char> },
    UnroutablePeer { peer: Seq<char> },
    PendingRoutablePeer { peer: Seq<char> },
    OutboundQueryProgressed { id: u64 },
    ModeChanged { new_mode: KadMode },
}

/// Abstract form of [`PeerIdentity`].
pub struct PeerIdentityView {
    pub protocol_version: Seq<char>,
    pub agent_version: Seq<char>,
    pub listen_addrs: Seq<Seq<char>>,
}

/// Abstract form of [`IdentifyEventInfo`].
pub enum IdentifyEventView {
    Received { peer_id: Seq<char>, info: PeerIdentityView },
    Sent { peer_id: Seq<char> },
    Pushed { peer_id: Seq<char>, info: PeerIdentityView },
    Error { peer_id: Seq<char> },
}

/// Abstract form of [`MdnsEventInfo`].
pub enum MdnsEventView {
    Discovered { peer_id: Seq<char>, address: Seq<char> },
    Expired { peer_id: Seq<char>, address: Seq<char> },
}

/// Abstract form of [`LogMessage`].
pub enum LogMessageView {
    Swarm { event: SwarmEventView, at: Elapsed },
    Kad { event: KadEventView, at: Elapsed },
    Identify { event: IdentifyEventView, at: Elapsed },
    Mdns { event: MdnsEventView, at: Elapsed },
}

impl View for SwarmEventInfo {
    type V = SwarmEventView;

    open spec fn view(&self) -> SwarmEventView {
        match self {
            SwarmEventInfo::ConnectionEstablished { peer_id } =>
                SwarmEventView::ConnectionEstablished { peer_id: peer_id@ },
            SwarmEventInfo::ConnectionClosed { peer_id } =>
                SwarmEventView::ConnectionClosed { peer_id: peer_id@ },
            SwarmEventInfo::IncomingConnection { address } =>
                SwarmEventView::IncomingConnection { address: address@ },
            SwarmEventInfo::ListenerClosed { listener_id, addresses } =>
                SwarmEventView::ListenerClosed {
                    listener_id: *listener_id,
                    addresses: strings_view(addresses@),
                },
            SwarmEventInfo::NewListenAddr { listener_id, address } =>
                SwarmEventView::NewListenAddr { listener_id: *listener_id, address: address@ },
            SwarmEventInfo::Dialing { peer_id } => SwarmEventView::Dialing { peer_id: opt_view(*peer_id) },
        }
    }
}

impl View for KadEventInfo {
    type V = KadEventView;

    open spec fn view(&self) -> KadEventView {
        match self {
            KadEventInfo::InboundRequest { request } => KadEventView::InboundRequest { request: request@ },
            KadEventInfo::RoutingUpdated { peer, is_new, addresses, old_peer } =>
                KadEventView::RoutingUpdated {
                    peer: peer@,
                    is_new: *is_new,
                    addresses: strings_view(addresses@),
                    old_peer: opt_view(*old_peer),
                },
            KadEventInfo::RoutablePeer { peer, address } =>
                KadEventView::RoutablePeer { peer: peer@, address: address@ },
            KadEventInfo::UnroutablePeer { peer } => KadEventView::UnroutablePeer { peer: peer@ },
            KadEventInfo::PendingRoutablePeer { peer } => KadEventView::PendingRoutablePeer { peer: peer@ },
            KadEventInfo::OutboundQueryProgressed { id } => KadEventView::OutboundQueryProgressed { id: *id },
            KadEventInfo::ModeChanged { new_mode } => KadEventView::ModeChanged { new_mode: *new_mode },
        }
    }
}

impl View for PeerIdentity {
    type V = PeerIdentityView;

    open spec fn view(&self) -> PeerIdentityView {
        PeerIdentityView {
            protocol_version: self.protocol_version@,
            agent_version: self.agent_version@,
            listen_addrs: strings_view(self.listen_addrs@),
        }
    }
}

impl View for IdentifyEventInfo {
    type V = IdentifyEventView;

    open spec fn view(&self) -> IdentifyEventView {
        match self {
            IdentifyEventInfo::Received { peer_id, info } =>
                IdentifyEventView::Received { peer_id: peer_id@, info: info@ },
            IdentifyEventInfo::Sent { peer_id } => IdentifyEventView::Sent { peer_id: peer_id@ },
            IdentifyEventInfo::Pushed { peer_id, info } =>
                IdentifyEventView::Pushed { peer_id: peer_id@, info: info@ },
            IdentifyEventInfo::Error { peer_id } => IdentifyEventView::Error { peer_id: peer_id@ },
        }
    }
}

impl View for MdnsEventInfo {
    type V = MdnsEventView;

    open spec fn view(&self) -> MdnsEventView {
        match self {
            MdnsEventInfo::Discovered { peer_id, address } =>
                MdnsEventView::Discovered { peer_id: peer_id@, address: address@ },
            MdnsEventInfo::Expired { peer_id, address } =>
                MdnsEventView::Expired { peer_id: peer_id@, address: address@ },
        }
    }
}

impl View for LogMessage {
    type V = LogMessageView;

    open spec fn view(&self) -> LogMessageView {
        match self {
            LogMessage::Swarm { event, at } => LogMessageView::Swarm { event: event@, at: *at },
            LogMessage::Kad { event, at } => LogMessageView::Kad { event: event@, at: *at },
            LogMessage::Identify { event, at } => LogMessageView::Identify { event: event@, at: *at },
            LogMessage::Mdns { event, at } => LogMessageView::Mdns { event: event@, at: *at },
        }
    }
}

fn clone_opt_string(o: &Option<String>) -> (r: Option<String>)
    ensures
        opt_view(r) == opt_view(*o),
{
    match o {
        Some(s) => Some(s.clone()),
        None => None,
    }
}

fn clone_addresses(v: &Vec<String>) -> (r: Vec<String>)
    ensures
        strings_view(r@) == strings_view(v@),
{
    let r = clone_strings(v);
    r
}

impl SwarmEventInfo {
    /// An identical copy.
    pub fn duplicate(&self) -> (r: Self)
        ensures
            r@ == self@,
    {
        match self {
            SwarmEventInfo::ConnectionEstablished { peer_id } =>
                SwarmEventInfo::ConnectionEstablished { peer_id: peer_id.clone() },
            SwarmEventInfo::ConnectionClosed { peer_id } =>
                SwarmEventInfo::ConnectionClosed { peer_id: peer_id.clone() },
            SwarmEventInfo::IncomingConnection { address } =>
                SwarmEventInfo::IncomingConnection { address: address.clone() },
            SwarmEventInfo::ListenerClosed { listener_id, addresses } =>
                SwarmEventInfo::ListenerClosed {
                    listener_id: *listener_id,
                    addresses: clone_addresses(addresses),
                },
            SwarmEventInfo::NewListenAddr { listener_id, address } =>
                SwarmEventInfo::NewListenAddr { listener_id: *listener_id, address: address.clone() },
            SwarmEventInfo::Dialing { peer_id } =>
                SwarmEventInfo::Dialing { peer_id: clone_opt_string(peer_id) },
        }
    }
}

impl KadEventInfo {
    /// An identical copy.
    pub fn duplicate(&self) -> (r: Self)
        ensures
            r@ == self@,
    {
        match self {
            KadEventInfo::InboundRequest { request } =>
                KadEventInfo::InboundRequest { request: request.clone() },
            KadEventInfo::RoutingUpdated { peer, is_new, addresses, old_peer } =>
                KadEventInfo::RoutingUpdated {
                    peer: peer.clone(),
                    is_new: *is_new,
                    addresses: clone_addresses(addresses),
                    old_peer: clone_opt_string(old_peer),
                },
            KadEventInfo::RoutablePeer { peer, address } =>
                KadEventInfo::RoutablePeer { peer: peer.clone(), address: address.clone() },
            KadEventInfo::UnroutablePeer { peer } => KadEventInfo::UnroutablePeer { peer: peer.clone() },
            KadEventInfo::PendingRoutablePeer { peer } =>
                KadEventInfo::PendingRoutablePeer { peer: peer.clone() },
            KadEventInfo::OutboundQueryProgressed { id } =>
                KadEventInfo::OutboundQueryProgressed { id: *id },
            KadEventInfo::ModeChanged { new_mode } => KadEventInfo::ModeChanged { new_mode: *new_mode },
        }
    }
}

impl PeerIdentity {
    /// An identical copy.
    pub fn duplicate(&self) -> (r: Self)
        ensures
            r@ == self@,
    {
        PeerIdentity {
            protocol_version: self.protocol_version.clone(),
            agent_version: self.agent_version.clone(),
            listen_addrs: clone_addresses(&self.listen_addrs),
        }
    }
}

impl IdentifyEventInfo {
    /// An identical copy.
    pub fn duplicate(&self) -> (r: Self)
        ensures
            r@ == self@,
    {
        match self {
            IdentifyEventInfo::Received { peer_id, info } =>
                IdentifyEventInfo::Received { peer_id: peer_id.clone(), info: info.duplicate() },
            IdentifyEventInfo::Sent { peer_id } => IdentifyEventInfo::Sent { peer_id: peer_id.clone() },
            IdentifyEventInfo::Pushed { peer_id, info } =>
                IdentifyEventInfo::Pushed { peer_id: peer_id.clone(), info: info.duplicate() },
            IdentifyEventInfo::Error { peer_id } => IdentifyEventInfo::Error { peer_id: peer_id.clone() },
        }
    }
}

impl MdnsEventInfo {
    /// An identical copy.
    pub fn duplicate(&self) -> (r: Self)
        ensures
            r@ == self@,
    {
        match self {
            MdnsEventInfo::Discovered { peer_id, address } =>
                MdnsEventInfo::Discovered { peer_id: peer_id.clone(), address: address.clone() },
            MdnsEventInfo::Expired { peer_id, address } =>
                MdnsEventInfo::Expired { peer_id: peer_id.clone(), address: address.clone() },
        }
    }
}

impl LogMessage {
    /// An identical copy.
    pub fn duplicate(&self) -> (r: Self)
        ensures
            r@ == self@,
    {
        match self {
            LogMessage::Swarm { event, at } => LogMessage::Swarm { event: event.duplicate(), at: *at },
            LogMessage::Kad { event, at } => LogMessage::Kad { event: event.duplicate(), at: *at },
            LogMessage::Identify { event, at } =>
                LogMessage::Identify { event: event.duplicate(), at: *at },
            LogMessage::Mdns { event, at } => LogMessage::Mdns { event: event.duplicate(), at: *at },
        }
    }
}

/// `s` with `x` appended, first dropping the oldest entry when `s` already
/// holds `cap` or more entries.
pub open spec fn bounded_push<T>(s: Seq<T>, x: T, cap: nat) -> Seq<T> {
    if s.len() >= cap && s.len() > 0 {
        s.drop_first().push(x)
    } else {
        s.push(x)
    }
}

/// The abstract content of a [`MessageHistory`].
pub struct HistoryView {
    pub identify: Seq<(IdentifyEventView, Elapsed)>,
    pub kademlia: Seq<(KadEventView, Elapsed)>,
    pub mdns: Seq<(MdnsEventView, Elapsed)>,
    pub swarm: Seq<(SwarmEventView, Elapsed)>,
    pub all: Seq<LogMessageView>,
}

impl HistoryView {
    /// Every log within its bound.
    pub open spec fn bounded(self) -> bool {
        &&& self.identify.len() <= MAX_SIZE
        &&& self.kademlia.len() <= MAX_SIZE
        &&& self.mdns.len() <= MAX_SIZE
        &&& self.swarm.len() <= MAX_SIZE
        &&& self.all.len() <= ALL_MAX_SIZE
    }
}

/// Mapping a function over a bounded push is a bounded push of the mapped values.
pub proof fn lemma_map_bounded_push<A, B>(s: Seq<A>, x: A, cap: nat, f: spec_fn(A) -> B)
    ensures
        bounded_push(s, x, cap).map_values(f) == bounded_push(s.map_values(f), f(x), cap),
{
    assert(bounded_push(s, x, cap).map_values(f) =~= bounded_push(s.map_values(f), f(x), cap));
}

spec fn identify_entry(p: (IdentifyEventInfo, Elapsed)) -> (IdentifyEventView, Elapsed) {
    (p.0@, p.1)
}

spec fn kad_entry(p: (KadEventInfo, Elapsed)) -> (KadEventView, Elapsed) {
    (p.0@, p.1)
}

spec fn mdns_entry(p: (MdnsEventInfo, Elapsed)) -> (MdnsEventView, Elapsed) {
    (p.0@, p.1)
}

spec fn swarm_entry(p: (SwarmEventInfo, Elapsed)) -> (SwarmEventView, Elapsed) {
    (p.0@, p.1)
}

spec fn log_entry(m: LogMessage) -> LogMessageView {
    m@
}

/// Container for the swarm events a node has seen, separated by protocol and
/// stamped with the time since the node started.
#[derive(Debug, Clone)]
pub struct MessageHistory {
    identify: VecDeque<(IdentifyEventInfo, Elapsed)>,
    kademlia: VecDeque<(KadEventInfo, Elapsed)>,
    mdns: VecDeque<(MdnsEventInfo, Elapsed)>,
    swarm: VecDeque<(SwarmEventInfo, Elapsed)>,
    all: VecDeque<LogMessage>,
}

impl View for MessageHistory {
    type V = HistoryView;

    closed spec fn view(&self) -> HistoryView {
        HistoryView {
            identify: self.identify@.map_values(|p: (IdentifyEventInfo, Elapsed)| identify_entry(p)),
            kademlia: self.kademlia@.map_values(|p: (KadEventInfo, Elapsed)| kad_entry(p)),
            mdns: self.mdns@.map_values(|p: (MdnsEventInfo, Elapsed)| mdns_entry(p)),
            swarm: self.swarm@.map_values(|p: (SwarmEventInfo, Elapsed)| swarm_entry(p)),
            all: self.all@.map_values(|m: LogMessage| log_entry(m)),
        }
    }
}

fn push_bounded<T>(q: &mut VecDeque<T>, x: T, cap: usize)
    ensures
        final(q)@ == bounded_push(old(q)@, x, cap as nat),
{
    if q.len() >= cap {
        let _ = q.pop_front();
    }
    q.push_back(x);
}

impl Default for MessageHistory {
    /// Empty logs.
    fn default() -> (h: Self)
        ensures
            h@.identify == Seq::<(IdentifyEventView, Elapsed)>::empty(),
            h@.kademlia == Seq::<(KadEventView, Elapsed)>::empty(),
            h@.mdns == Seq::<(MdnsEventView, Elapsed)>::empty(),
            h@.swarm == Seq::<(SwarmEventView, Elapsed)>::empty(),
            h@.all == Seq::<LogMessageView>::empty(),
    {
        MessageHistory::new()
    }
}

impl MessageHistory {
    /// An empty history.
    pub fn new() -> (h: Self)
        ensures
            h@.identify == Seq::<(IdentifyEventView, Elapsed)>::empty(),
            h@.kademlia == Seq::<(KadEventView, Elapsed)>::empty(),
            h@.mdns == Seq::<(MdnsEventView, Elapsed)>::empty(),
            h@.swarm == Seq::<(SwarmEventView, Elapsed)>::empty(),
            h@.all == Seq::<LogMessageView>::empty(),
    {
        let h = MessageHistory {
            identify: VecDeque::new(),
            kademlia: VecDeque::new(),
            mdns: VecDeque::new(),
            swarm: VecDeque::new(),
            all: VecDeque::new(),
        };
        assert(h@.identify =~= Seq::<(IdentifyEventView, Elapsed)>::empty());
        assert(h@.kademlia =~= Seq::<(KadEventView, Elapsed)>::empty());
        assert(h@.mdns =~= Seq::<(MdnsEventView, Elapsed)>::empty());
        assert(h@.swarm =~= Seq::<(SwarmEventView, Elapsed)>::empty());
        assert(h@.all =~= Seq::<LogMessageView>::empty());
        h
    }

    /// Adds a message to the combined log, dropping the oldest once full.
    pub fn add_to_all(&mut self, message: LogMessage)
        ensures
            final(self)@.all == bounded_push(old(self)@.all, message@, ALL_MAX_SIZE as nat),
            final(self)@.identify == old(self)@.identify,
            final(self)@.kademlia == old(self)@.kademlia,
            final(self)@.mdns == old(self)@.mdns,
            final(self)@.swarm == old(self)@.swarm,
    {
        proof {
            lemma_map_bounded_push(self.all@, message, ALL_MAX_SIZE as nat, |m: LogMessage| log_entry(m));
        }
        push_bounded(&mut self.all, message, ALL_MAX_SIZE);
    }

    /// Adds an identify event to its own log and to the combined log.
    pub fn add_identify_event(&mut self, event: IdentifyEventInfo, since_start: Elapsed)
        ensures
            final(self)@.identify == bounded_push(old(self)@.identify, (event@, since_start), MAX_SIZE as nat),
            final(self)@.all == bounded_push(
                old(self)@.all,
                LogMessageView::Identify { event: event@, at: since_start },
                ALL_MAX_SIZE as nat,
            ),
            final(self)@.kademlia == old(self)@.kademlia,
            final(self)@.mdns == old(self)@.mdns,
            final(self)@.swarm == old(self)@.swarm,
    {
        let copy = event.duplicate();
        proof {
            lemma_map_bounded_push(
                self.identify@,
                (copy, since_start),
                MAX_SIZE as nat,
                |p: (IdentifyEventInfo, Elapsed)| identify_entry(p),
            );
        }
        push_bounded(&mut self.identify, (copy, since_start), MAX_SIZE);
        self.add_to_all(LogMessage::Identify { event, at: since_start });
    }

    /// Adds an mDNS event to its own log and to the combined log.
    pub fn add_mdns_event(&mut self, event: MdnsEventInfo, since_start: Elapsed)
        ensures
            final(self)@.mdns == bounded_push(old(self)@.mdns, (event@, since_start), MAX_SIZE as nat),
            final(self)@.all == bounded_push(
                old(self)@.all,
                LogMessageView::Mdns { event: event@, at: since_start },
                ALL_MAX_SIZE as nat,
            ),
            final(self)@.identify == old(self)@.identify,
            final(self)@.kademlia == old(self)@.kademlia,
            final(self)@.swarm == old(self)@.swarm,
    {
        let copy = event.duplicate();
        proof {
            lemma_map_bounded_push(
                self.mdns@,
                (copy, since_start),
                MAX_SIZE as nat,
                |p: (MdnsEventInfo, Elapsed)| mdns_entry(p),
            );
        }
        push_bounded(&mut self.mdns, (copy, since_start), MAX_SIZE);
        self.add_to_all(LogMessage::Mdns { event, at: since_start });
    }

    /// Adds a Kademlia event to its own log and to the combined log.
    pub fn add_kademlia_event(&mut self, event: KadEventInfo, since_start: Elapsed)
        ensures
            final(self)@.kademlia == bounded_push(old(self)@.kademlia, (event@, since_start), MAX_SIZE as nat),
            final(self)@.all == bounded_push(
                old(self)@.all,
                LogMessageView::Kad { event: event@, at: since_start },
                ALL_MAX_SIZE as nat,
            ),
            final(self)@.identify == old(self)@.identify,
            final(self)@.mdns == old(self)@.mdns,
            final(self)@.swarm == old(self)@.swarm,
    {
        let copy = event.duplicate();
        proof {
            lemma_map_bounded_push(
                self.kademlia@,
                (copy, since_start),
                MAX_SIZE as nat,
                |p: (KadEventInfo, Elapsed)| kad_entry(p),
            );
        }
        push_bounded(&mut self.kademlia, (copy, since_start), MAX_SIZE);
        self.add_to_all(LogMessage::Kad { event, at: since_start });
    }

    /// Adds a swarm event to its own log and to the combined log.
    pub fn add_swarm_event(&mut self, event: SwarmEventInfo, since_start: Elapsed)
        ensures
            final(self)@.swarm == bounded_push(old(self)@.swarm, (event@, since_start), MAX_SIZE as nat),
            final(self)@.all == bounded_push(
                old(self)@.all,
                LogMessageView::Swarm { event: event@, at: since_start },
                ALL_MAX_SIZE as nat,
            ),
            final(self)@.identify == old(self)@.identify,
            final(self)@.kademlia == old(self)@.kademlia,
            final(self)@.mdns == old(self)@.mdns,
    {
        let copy = event.duplicate();
        proof {
            lemma_map_bounded_push(
                self.swarm@,
                (copy, since_start),
                MAX_SIZE as nat,
                |p: (SwarmEventInfo, Elapsed)| swarm_entry(p),
            );
        }
        push_bounded(&mut self.swarm, (copy, since_start), MAX_SIZE);
        self.add_to_all(LogMessage::Swarm { event, at: since_start });
    }
}

/// The entries of a per-protocol log, each tagged as a combined-log message.
pub open spec fn tagged_kad(s: Seq<(KadEventView, Elapsed)>) -> Seq<LogMessageView> {
    s.map_values(|p: (KadEventView, Elapsed)| LogMessageView::Kad { event: p.0, at: p.1 })
}

/// The entries of a per-protocol log, each tagged as a combined-log message.
pub open spec fn tagged_mdns(s: Seq<(MdnsEventView, Elapsed)>) -> Seq<LogMessageView> {
    s.map_values(|p: (MdnsEventView, Elapsed)| LogMessageView::Mdns { event: p.0, at: p.1 })
}

/// The entries of a per-protocol log, each tagged as a combined-log message.
pub open spec fn tagged_identify(s: Seq<(IdentifyEventView, Elapsed)>) -> Seq<LogMessageView> {
    s.map_values(|p: (IdentifyEventView, Elapsed)| LogMessageView::Identify { event: p.0, at: p.1 })
}

/// The entries of a per-protocol log, each tagged as a combined-log message.
pub open spec fn tagged_swarm(s: Seq<(SwarmEventView, Elapsed)>) -> Seq<LogMessageView> {
    s.map_values(|p: (SwarmEventView, Elapsed)| LogMessageView::Swarm { event: p.0, at: p.1 })
}

/// The views of a list of log messages.
pub open spec fn messages_view(v: Seq<LogMessage>) -> Seq<LogMessageView> {
    v.map_values(|m: LogMessage| m@)
}

impl MessageHistory {
    /// The Kademlia log, oldest first, as combined-log messages.
    pub fn kad_messages(&self) -> (r: Vec<LogMessage>)
        ensures
            messages_view(r@) == tagged_kad(self@.kademlia),
    {
        let mut r: Vec<LogMessage> = Vec::new();
        let mut i: usize = 0;
        while i < self.kademlia.len()
            invariant
                i <= self.kademlia@.len(),
                r@.len() == i,
                messages_view(r@) =~= tagged_kad(self@.kademlia).subrange(0, i as int),
                self@.kademlia == self.kademlia@.map_values(|p: (KadEventInfo, Elapsed)| kad_entry(p)),
            decreases self.kademlia@.len() - i,
        {
            let (e, t) = &self.kademlia[i];
            let ghost before = r@;
            r.push(LogMessage::Kad { event: e.duplicate(), at: *t });
            proof {
                assert(r@ =~= before.push(r@[i as int]));
                assert(messages_view(r@) =~= messages_view(before).push(tagged_kad(self@.kademlia)[i as int]));
            }
            i += 1;
        }
        r
    }

    /// The mDNS log, oldest first, as combined-log messages.
    pub fn mdns_messages(&self) -> (r: Vec<LogMessage>)
        ensures
            messages_view(r@) == tagged_mdns(self@.mdns),
    {
        let mut r: Vec<LogMessage> = Vec::new();
        let mut i: usize = 0;
        while i < self.mdns.len()
            invariant
                i <= self.mdns@.len(),
                r@.len() == i,
                messages_view(r@) =~= tagged_mdns(self@.mdns).subrange(0, i as int),
                self@.mdns == self.mdns@.map_values(|p: (MdnsEventInfo, Elapsed)| mdns_entry(p)),
            decreases self.mdns@.len() - i,
        {
            let (e, t) = &self.mdns[i];
            let ghost before = r@;
            r.push(LogMessage::Mdns { event: e.duplicate(), at: *t });
            proof {
                assert(r@ =~= before.push(r@[i as int]));
                assert(messages_view(r@) =~= messages_view(before).push(tagged_mdns(self@.mdns)[i as int]));
            }
            i += 1;
        }
        r
    }

    /// The identify log, oldest first, as combined-log messages.
    pub fn identify_messages(&self) -> (r: Vec<LogMessage>)
        ensures
            messages_view(r@) == tagged_identify(self@.identify),
    {
        let mut r: Vec<LogMessage> = Vec::new();
        let mut i: usize = 0;
        while i < self.identify.len()
            invariant
                i <= self.identify@.len(),
                r@.len() == i,
                messages_view(r@) =~= tagged_identify(self@.identify).subrange(0, i as int),
                self@.identify == self.identify@.map_values(
                    |p: (IdentifyEventInfo, Elapsed)| identify_entry(p),
                ),
            decreases self.identify@.len() - i,
        {
            let (e, t) = &self.identify[i];
            let ghost before = r@;
            r.push(LogMessage::Identify { event: e.duplicate(), at: *t });
            proof {
                assert(r@ =~= before.push(r@[i as int]));
                assert(messages_view(r@) =~= messages_view(before).push(tagged_identify(self@.identify)[i as int]));
            }
            i += 1;
        }
        r
    }

    /// The swarm log, oldest first, as combined-log messages.
    pub fn swarm_messages(&self) -> (r: Vec<LogMessage>)
        ensures
            messages_view(r@) == tagged_swarm(self@.swarm),
    {
        let mut r: Vec<LogMessage> = Vec::new();
        let mut i: usize = 0;
        while i < self.swarm.len()
            invariant
                i <= self.swarm@.len(),
                r@.len() == i,
                messages_view(r@) =~= tagged_swarm(self@.swarm).subrange(0, i as int),
                self@.swarm == self.swarm@.map_values(|p: (SwarmEventInfo, Elapsed)| swarm_entry(p)),
            decreases self.swarm@.len() - i,
        {
            let (e, t) = &self.swarm[i];
            let ghost before = r@;
            r.push(LogMessage::Swarm { event: e.duplicate(), at: *t });
            proof {
                assert(r@ =~= before.push(r@[i as int]));
                assert(messages_view(r@) =~= messages_view(before).push(tagged_swarm(self@.swarm)[i as int]));
            }
            i += 1;
        }
        r
    }

    /// The combined log, oldest first.
    pub fn all_messages(&self) -> (r: Vec<LogMessage>)
        ensures
            messages_view(r@) == self@.all,
    {
        let mut r: Vec<LogMessage> = Vec::new();
        let mut i: usize = 0;
        while i < self.all.len()
            invariant
                i <= self.all@.len(),
                r@.len() == i,
                messages_view(r@) =~= self@.all.subrange(0, i as int),
                self@.all == self.all@.map_values(|m: LogMessage| log_entry(m)),
            decreases self.all@.len() - i,
        {
            let ghost before = r@;
            r.push(self.all[i].duplicate());
            proof {
                assert(r@ =~= before.push(r@[i as int]));
                assert(messages_view(r@) =~= messages_view(before).push(self@.all[i as int]));
            }
            i += 1;
        }
        r
    }
}

} // verus!
