//! The node's swarm event handlers. Each turns an event into [`Effects`];
//! handlers are tried in order and the first that claims an event is the
//! only one that acts on it.

use vstd::prelude::*;

use crate::addr::{IpValue, extract_ip, first_ip, ip_equals_v4, ip_is_v4};
use crate::effects::{
    ConnectionOp, ConnectionOpView, Effects, EffectsView, KadOp, KadOpView, LogKind, LogKindView,
    StateMutation,
};
use crate::events::{NetworkEvent, NetworkEventView};
use crate::history::{
    Elapsed, IdentifyEventInfo, IdentifyEventView, KadEventInfo, KadEventView, MdnsEventInfo,
    MdnsEventView, PeerIdentity, SwarmEventInfo, SwarmEventView, strings_view,
};
use crate::inputs::{
    Endpoint, EndpointView, IdentifyInput, IdentifyInputView, KadInput, KadInputView, MdnsInput,
    MdnsInputView, MdnsRecordView, QueryOutcome, QueryOutcomeView, SwarmInput, SwarmInputView,
};
use crate::text::clone_strings;
use crate::tracker::ConnectionTracker;

verus! {

/// The agent string every node of the simulation announces.
pub open spec fn agent_text() -> Seq<char> {
    "node-network/0.1"@
}

/// The agent string every node of the simulation announces.
pub fn node_network_agent() -> (s: String)
    ensures
        s@ == agent_text(),
{
    String::from_str("node-network/0.1")
}

/// The identify protocol name nodes use.
pub open spec fn ipfs_proto_text() -> Seq<char> {
    "/ipfs/id/1.0.0"@
}

/// The identify protocol name nodes use.
pub fn ipfs_proto_name() -> (s: String)
    ensures
        s@ == ipfs_proto_text(),
{
    String::from_str("/ipfs/id/1.0.0")
}

/// The Kademlia queries a node keeps track of.
#[derive(Clone, Copy, Debug, PartialEq, Eq, Structural)]
pub struct KadQueries {
    pub bootstrap: Option<u64>,
    pub providing_agent: Option<u64>,
    pub get_providers: Option<u64>,
}

impl KadQueries {
    /// No query tracked.
    pub fn new() -> (q: Self)
        ensures
            q == (KadQueries { bootstrap: None, providing_agent: None, get_providers: None }),
    {
        KadQueries { bootstrap: None, providing_agent: None, get_providers: None }
    }
}

/// Read-only view of a running node handed to each handler.
pub struct HandlerCtx<'a> {
    pub self_peer_id: String,
    pub bind_address: Option<(u8, u8, u8, u8)>,
    pub bootstrapped: bool,
    pub kad_queries: KadQueries,
    pub connections: &'a ConnectionTracker,
}

/// The address a connection is reached at: the dialed address, or the
/// remote's send-back address.
pub open spec fn endpoint_addr(e: EndpointView) -> Seq<char> {
    match e {
        EndpointView::Dialer { address } => address,
        EndpointView::Listener { send_back_addr, .. } => send_back_addr,
    }
}

/// Whether the core handler claims an event: every non-behaviour event it
/// knows.
pub open spec fn core_claims(e: SwarmInputView) -> bool {
    match e {
        SwarmInputView::Identify(_) | SwarmInputView::Kademlia(_) | SwarmInputView::Mdns(_)
        | SwarmInputView::Other => false,
        _ => true,
    }
}

/// What the core handler asks for.
pub open spec fn core_effects(e: SwarmInputView, self_peer: Seq<char>, bootstrapped: bool, at: Elapsed)
    -> EffectsView {
    match e {
        SwarmInputView::Dialing { peer_id } =>
            EffectsView::log(LogKindView::Swarm(SwarmEventView::Dialing { peer_id }), at),
        SwarmInputView::IncomingConnection { send_back_addr } =>
            EffectsView::log(
                LogKindView::Swarm(SwarmEventView::IncomingConnection { address: send_back_addr }),
                at,
            ),
        SwarmInputView::NewListenAddr { listener_id, address } => EffectsView {
            log_entries: seq![(LogKindView::Swarm(SwarmEventView::NewListenAddr { listener_id, address }), at)],
            published: seq![NetworkEventView::NodeListening { peer_id: self_peer, address }],
            ..EffectsView::empty()
        },
        SwarmInputView::ConnectionEstablished { peer_id, endpoint } => EffectsView {
            log_entries: seq![(LogKindView::Swarm(SwarmEventView::ConnectionEstablished { peer_id }), at)],
            kad_ops: seq![KadOpView::AddAddress { peer: peer_id, addr: endpoint_addr(endpoint) }] + (
            if bootstrapped {
                Seq::empty()
            } else {
                seq![KadOpView::Bootstrap]
            }),
            connection_ops: seq![ConnectionOpView::AddActive { peer: peer_id }],
            published: seq![NetworkEventView::NodesConnected { peer_one: peer_id, peer_two: self_peer }],
            ..EffectsView::empty()
        },
        SwarmInputView::ConnectionClosed { peer_id, num_established, .. } => EffectsView {
            log_entries: seq![(LogKindView::Swarm(SwarmEventView::ConnectionClosed { peer_id }), at)],
            connection_ops: if num_established == 0 {
                seq![ConnectionOpView::RemoveActive { peer: peer_id }]
            } else {
                Seq::empty()
            },
            published: seq![NetworkEventView::NodesDisconnected { peer_one: peer_id, peer_two: self_peer }],
            ..EffectsView::empty()
        },
        SwarmInputView::ListenerClosed { listener_id, addresses } =>
            EffectsView::log(
                LogKindView::Swarm(SwarmEventView::ListenerClosed { listener_id, addresses }),
                at,
            ),
        _ => EffectsView::empty(),
    }
}

/// What the identify handler asks for. A peer announcing the simulation's
/// agent that the node is not connected to gets its first listen address dialed.
pub open spec fn identify_effects(e: IdentifyInputView, connected: Set<Seq<char>>, at: Elapsed)
    -> EffectsView {
    match e {
        IdentifyInputView::Received { peer_id, info } => EffectsView {
            log_entries: seq![(LogKindView::Identify(IdentifyEventView::Received { peer_id, info }), at)],
            dials: if info.agent_version == agent_text() && !connected.contains(peer_id)
                && info.listen_addrs.len() > 0 {
                seq![info.listen_addrs[0]]
            } else {
                Seq::empty()
            },
            ..EffectsView::empty()
        },
        IdentifyInputView::Sent { peer_id } =>
            EffectsView::log(LogKindView::Identify(IdentifyEventView::Sent { peer_id }), at),
        IdentifyInputView::Pushed { peer_id, info } =>
            EffectsView::log(LogKindView::Identify(IdentifyEventView::Pushed { peer_id, info }), at),
        IdentifyInputView::Error { peer_id, timeout } => EffectsView {
            log_entries: seq![(LogKindView::Identify(IdentifyEventView::Error { peer_id }), at)],
            kad_ops: if timeout {
                seq![KadOpView::RemovePeer { peer: peer_id }]
            } else {
                Seq::empty()
            },
            ..EffectsView::empty()
        },
    }
}

/// Closest-peer lookups for each of the given peers, in order.
pub open spec fn closest_peer_lookups(peers: Seq<Seq<char>>) -> Seq<KadOpView> {
    peers.map_values(|p: Seq<char>| KadOpView::GetClosestPeers { peer: p })
}

/// What the outcome of query `id` asks for, given the tracked queries.
pub open spec fn query_effects(r: QueryOutcomeView, id: u64, last: bool, q: KadQueries) -> EffectsView {
    match r {
        QueryOutcomeView::BootstrapOk { .. } =>
            if q.bootstrap == Some(id) && last {
                EffectsView {
                    kad_ops: seq![
                        KadOpView::SetBootstrapped(true),
                        KadOpView::GetProviders { key: agent_text() },
                    ],
                    state_mutations: seq![
                        StateMutation::ClearBootstrapQuery,
                        StateMutation::MarkBootstrapped,
                    ],
                    ..EffectsView::empty()
                }
            } else {
                EffectsView::empty()
            },
        QueryOutcomeView::BootstrapErr => EffectsView::mutation(StateMutation::ClearBootstrapQuery),
        QueryOutcomeView::ProvidersFound { providers } =>
            if q.get_providers == Some(id) {
                EffectsView {
                    kad_ops: closest_peer_lookups(providers),
                    state_mutations: seq![StateMutation::ClearGetProvidersQuery],
                    ..EffectsView::empty()
                }
            } else {
                EffectsView::empty()
            },
        QueryOutcomeView::ProvidersFinished { closest_peers } =>
            if q.get_providers == Some(id) {
                EffectsView { kad_ops: closest_peer_lookups(closest_peers), ..EffectsView::empty() }
            } else {
                EffectsView::empty()
            },
        QueryOutcomeView::GetProvidersErr =>
            if q.get_providers == Some(id) {
                EffectsView::mutation(StateMutation::ClearGetProvidersQuery)
            } else {
                EffectsView::empty()
            },
        QueryOutcomeView::StartProvidingOk =>
            if q.providing_agent == Some(id) && last {
                EffectsView::mutation(StateMutation::ClearProvidingAgentQuery)
            } else {
                EffectsView::empty()
            },
        QueryOutcomeView::StartProvidingErr =>
            if q.providing_agent == Some(id) {
                EffectsView::mutation(StateMutation::ClearProvidingAgentQuery)
            } else {
                EffectsView::empty()
            },
        _ => EffectsView::empty(),
    }
}

/// What the Kademlia handler asks for.
pub open spec fn kad_effects(e: KadInputView, q: KadQueries, at: Elapsed) -> EffectsView {
    match e {
        KadInputView::InboundRequest { request } =>
            EffectsView::log(LogKindView::Kademlia(KadEventView::InboundRequest { request }), at),
        KadInputView::OutboundQueryProgressed { id, result, last } =>
            EffectsView::log(LogKindView::Kademlia(KadEventView::OutboundQueryProgressed { id }), at)
                .followed_by(query_effects(result, id, last, q)),
        KadInputView::RoutingUpdated { peer, addresses, is_new_peer, old_peer } =>
            EffectsView::log(
                LogKindView::Kademlia(KadEventView::RoutingUpdated { peer, is_new: is_new_peer, addresses, old_peer }),
                at,
            ),
        KadInputView::RoutablePeer { peer, address } =>
            EffectsView::log(LogKindView::Kademlia(KadEventView::RoutablePeer { peer, address }), at),
        KadInputView::UnroutablePeer { peer } =>
            EffectsView::log(LogKindView::Kademlia(KadEventView::UnroutablePeer { peer }), at),
        KadInputView::PendingRoutablePeer { peer, .. } =>
            EffectsView::log(LogKindView::Kademlia(KadEventView::PendingRoutablePeer { peer }), at),
        KadInputView::ModeChanged { new_mode } => EffectsView {
            log_entries: seq![(LogKindView::Kademlia(KadEventView::ModeChanged { new_mode }), at)],
            kad_ops: seq![KadOpView::SetMode(new_mode)],
            ..EffectsView::empty()
        },
    }
}

/// Whether an mDNS event reports at least one record.
pub open spec fn mdns_nonempty(e: MdnsInputView) -> bool {
    match e {
        MdnsInputView::Discovered(v) => v.len() > 0,
        MdnsInputView::Expired(v) => v.len() > 0,
    }
}

/// What the mDNS handler asks for; only the first record of an event is
/// considered. A discovered peer at the node's own bind address is dialed.
pub open spec fn mdns_effects(e: MdnsInputView, bind: Option<(u8, u8, u8, u8)>, at: Elapsed) -> EffectsView {
    match e {
        MdnsInputView::Discovered(v) => {
            let r = v[0];
            let logged = EffectsView::log(
                LogKindView::Mdns(MdnsEventView::Discovered { peer_id: r.peer_id, address: r.address }),
                at,
            );
            match first_ip(r.parts) {
                None => logged,
                Some(ip) => EffectsView {
                    dials: if bind is Some && ip_is_v4(ip, bind->0) {
                        seq![r.address]
                    } else {
                        Seq::empty()
                    },
                    published: seq![NetworkEventView::NodeDiscovered { peer_id: r.peer_id }],
                    ..logged
                },
            }
        },
        MdnsInputView::Expired(v) => {
            let r = v[0];
            EffectsView {
                log_entries: seq![(LogKindView::Mdns(MdnsEventView::Expired { peer_id: r.peer_id, address: r.address }), at)],
                published: seq![NetworkEventView::NodeExpired { peer_id: r.peer_id }],
                ..EffectsView::empty()
            }
        },
    }
}

/// Whether an event is one the handlers can take: mDNS events must report a record.
pub open spec fn handleable(e: SwarmInputView) -> bool {
    match e {
        SwarmInputView::Mdns(m) => mdns_nonempty(m),
        _ => true,
    }
}

/// Whether the handlers can take `event`: an mDNS event must report a record.
pub fn can_handle(event: &SwarmInput) -> (b: bool)
    ensures
        b == handleable(event@),
{
    match event {
        SwarmInput::Mdns(MdnsInput::Discovered(v)) => v.len() > 0,
        SwarmInput::Mdns(MdnsInput::Expired(v)) => v.len() > 0,
        _ => true,
    }
}

/// The handlers of a node, in the order they are tried.
#[derive(Clone, Copy, Debug, PartialEq, Eq, Structural)]
pub enum HandlerKind {
    Core,
    Identify,
    Kademlia,
    Mdns,
}

/// Whether a handler claims an event.
pub open spec fn claims(h: HandlerKind, e: SwarmInputView) -> bool {
    match h {
        HandlerKind::Core => core_claims(e),
        HandlerKind::Identify => e is Identify,
        HandlerKind::Kademlia => e is Kademlia,
        HandlerKind::Mdns => e is Mdns,
    }
}

/// What a handler asks for when it claims an event, nothing otherwise.
pub open spec fn handler_effects(
    h: HandlerKind,
    e: SwarmInputView,
    self_peer: Seq<char>,
    bind: Option<(u8, u8, u8, u8)>,
    bootstrapped: bool,
    q: KadQueries,
    connected: Set<Seq<char>>,
    at: Elapsed,
) -> EffectsView {
    if !claims(h, e) {
        EffectsView::empty()
    } else {
        match e {
            SwarmInputView::Identify(i) => identify_effects(i, connected, at),
            SwarmInputView::Kademlia(k) => kad_effects(k, q, at),
            SwarmInputView::Mdns(m) => mdns_effects(m, bind, at),
            _ => core_effects(e, self_peer, bootstrapped, at),
        }
    }
}

/// The handler chain in its canonical order: the core swarm-lifecycle handler
/// first, then the three behaviour handlers.
pub open spec fn chain() -> Seq<HandlerKind> {
    seq![HandlerKind::Core, HandlerKind::Identify, HandlerKind::Kademlia, HandlerKind::Mdns]
}

/// The chain in its canonical order.
pub fn handler_chain() -> (v: Vec<HandlerKind>)
    ensures
        v@ == chain(),
{
    let v = vec![HandlerKind::Core, HandlerKind::Identify, HandlerKind::Kademlia, HandlerKind::Mdns];
    assert(v@ =~= chain());
    v
}

fn clone_opt(o: &Option<String>) -> (r: Option<String>)
    ensures
        r == *o,
{
    match o {
        Some(s) => Some(s.clone()),
        None => None,
    }
}

fn endpoint_address(e: &Endpoint) -> (a: String)
    ensures
        a@ == endpoint_addr(e@),
{
    match e {
        Endpoint::Dialer { address } => address.clone(),
        Endpoint::Listener { send_back_addr, .. } => send_back_addr.clone(),
    }
}

/// The core swarm-lifecycle handler: connections, listeners and dialing.
pub fn handle_core(event: &SwarmInput, ctx: &HandlerCtx, at: Elapsed, effects: &mut Effects) -> (claimed: bool)
    ensures
        claimed == claims(HandlerKind::Core, event@),
        final(effects)@ == old(effects)@.followed_by(
            if claimed {
                core_effects(event@, ctx.self_peer_id@, ctx.bootstrapped, at)
            } else {
                EffectsView::empty()
            },
        ),
{
    let mut out = Effects::new();
    match event {
        SwarmInput::Dialing { peer_id } => {
            out.push_log(LogKind::Swarm(SwarmEventInfo::Dialing { peer_id: clone_opt(peer_id) }), at);
        },
        SwarmInput::IncomingConnection { send_back_addr } => {
            out.push_log(
                LogKind::Swarm(SwarmEventInfo::IncomingConnection { address: send_back_addr.clone() }),
                at,
            );
        },
        SwarmInput::NewListenAddr { listener_id, address } => {
            out.push_log(
                LogKind::Swarm(SwarmEventInfo::NewListenAddr { listener_id: *listener_id, address: address.clone() }),
                at,
            );
            out.push_published(NetworkEvent::NodeListening {
                peer_id: ctx.self_peer_id.clone(),
                address: address.clone(),
            });
        },
        SwarmInput::ConnectionEstablished { peer_id, endpoint } => {
            out.push_kad(KadOp::AddAddress { peer: peer_id.clone(), addr: endpoint_address(endpoint) });
            out.push_connection(ConnectionOp::AddActive { peer: peer_id.clone() });
            out.push_log(
                LogKind::Swarm(SwarmEventInfo::ConnectionEstablished { peer_id: peer_id.clone() }),
                at,
            );
            out.push_published(NetworkEvent::NodesConnected {
                peer_one: peer_id.clone(),
                peer_two: ctx.self_peer_id.clone(),
            });
            if !ctx.bootstrapped {
                out.push_kad(KadOp::Bootstrap);
            }
        },
        SwarmInput::ConnectionClosed { peer_id, num_established, .. } => {
            out.push_log(
                LogKind::Swarm(SwarmEventInfo::ConnectionClosed { peer_id: peer_id.clone() }),
                at,
            );
            out.push_published(NetworkEvent::NodesDisconnected {
                peer_one: peer_id.clone(),
                peer_two: ctx.self_peer_id.clone(),
            });
            if *num_established == 0 {
                out.push_connection(ConnectionOp::RemoveActive { peer: peer_id.clone() });
            }
        },
        SwarmInput::ListenerClosed { listener_id, addresses } => {
            out.push_log(
                LogKind::Swarm(SwarmEventInfo::ListenerClosed {
                    listener_id: *listener_id,
                    addresses: clone_strings(addresses),
                }),
                at,
            );
        },
        SwarmInput::IncomingConnectionError { .. } => {},
        SwarmInput::OutgoingConnectionError { .. } => {},
        _ => {
            proof {
                assert(out@ =~= EffectsView::empty());
                crate::effects::lemma_then_empty(effects@);
            }
            return false;
        },
    }
    assert(out@ =~= core_effects(event@, ctx.self_peer_id@, ctx.bootstrapped, at));
    effects.append_all(out);
    true
}

/// Handles identify protocol events.
pub fn handle_identify(event: &SwarmInput, ctx: &HandlerCtx, at: Elapsed, effects: &mut Effects) -> (claimed: bool)
    ensures
        claimed == claims(HandlerKind::Identify, event@),
        final(effects)@ == old(effects)@.followed_by(
            match event@ {
                SwarmInputView::Identify(i) => identify_effects(i, ctx.connections.current(), at),
                _ => EffectsView::empty(),
            },
        ),
{
    let e = match event {
        SwarmInput::Identify(e) => e,
        _ => {
            proof {
                crate::effects::lemma_then_empty(effects@);
            }
            return false;
        },
    };
    let mut out = Effects::new();
    match e {
        IdentifyInput::Received { peer_id, info } => {
            out.push_log(
                LogKind::Identify(IdentifyEventInfo::Received { peer_id: peer_id.clone(), info: info.duplicate() }),
                at,
            );
            let agent = node_network_agent();
            if info.agent_version == agent && !ctx.connections.has_connection(peer_id) {
                if info.listen_addrs.len() > 0 {
                    out.push_dial(info.listen_addrs[0].clone());
                }
            }
        },
        IdentifyInput::Sent { peer_id } => {
            out.push_log(LogKind::Identify(IdentifyEventInfo::Sent { peer_id: peer_id.clone() }), at);
        },
        IdentifyInput::Pushed { peer_id, info } => {
            out.push_log(
                LogKind::Identify(IdentifyEventInfo::Pushed { peer_id: peer_id.clone(), info: info.duplicate() }),
                at,
            );
        },
        IdentifyInput::Error { peer_id, timeout } => {
            out.push_log(LogKind::Identify(IdentifyEventInfo::Error { peer_id: peer_id.clone() }), at);
            if *timeout {
                out.push_kad(KadOp::RemovePeer { peer: peer_id.clone() });
            }
        },
    }
    assert(out@ =~= identify_effects(e@, ctx.connections.current(), at));
    effects.append_all(out);
    true
}

fn closest_lookups(peers: &Vec<String>, out: &mut Effects)
    ensures
        final(out)@ == old(out)@.followed_by(
            EffectsView { kad_ops: closest_peer_lookups(strings_view(peers@)), ..EffectsView::empty() },
        ),
{
    let mut i: usize = 0;
    proof {
        assert(closest_peer_lookups(strings_view(peers@.subrange(0, 0))) =~= Seq::empty());
        assert(old(out)@.followed_by(EffectsView::empty()) =~= old(out)@);
    }
    while i < peers.len()
        invariant
            i <= peers@.len(),
            out@ == old(out)@.followed_by(
                EffectsView {
                    kad_ops: closest_peer_lookups(strings_view(peers@.subrange(0, i as int))),
                    ..EffectsView::empty()
                },
            ),
        decreases peers@.len() - i,
    {
        out.push_kad(KadOp::GetClosestPeers { peer: peers[i].clone() });
        proof {
            assert(closest_peer_lookups(strings_view(peers@.subrange(0, i + 1))) =~= closest_peer_lookups(
                strings_view(peers@.subrange(0, i as int)),
            ).push(KadOpView::GetClosestPeers { peer: peers@[i as int]@ }));
            assert(out@ =~= old(out)@.followed_by(
                EffectsView {
                    kad_ops: closest_peer_lookups(strings_view(peers@.subrange(0, i + 1))),
                    ..EffectsView::empty()
                },
            ));
        }
        i += 1;
    }
    proof {
        assert(peers@.subrange(0, peers@.len() as int) =~= peers@);
    }
}

/// Acts on the outcome of a progressed outbound query.
fn handle_query_result(result: &QueryOutcome, id: u64, last: bool, ctx: &HandlerCtx, out: &mut Effects)
    ensures
        final(out)@ == old(out)@.followed_by(query_effects(result@, id, last, ctx.kad_queries)),
{
    let mut delta = Effects::new();
    match result {
        QueryOutcome::BootstrapOk { .. } => {
            if ctx.kad_queries.bootstrap == Some(id) && last {
                delta.push_mutation(StateMutation::ClearBootstrapQuery);
                delta.push_mutation(StateMutation::MarkBootstrapped);
                delta.push_kad(KadOp::SetBootstrapped(true));
                delta.push_kad(KadOp::GetProviders { key: node_network_agent() });
            }
        },
        QueryOutcome::BootstrapErr => {
            delta.push_mutation(StateMutation::ClearBootstrapQuery);
        },
        QueryOutcome::ProvidersFound { providers } => {
            if ctx.kad_queries.get_providers == Some(id) {
                closest_lookups(providers, &mut delta);
                delta.push_mutation(StateMutation::ClearGetProvidersQuery);
            }
        },
        QueryOutcome::ProvidersFinished { closest_peers } => {
            if ctx.kad_queries.get_providers == Some(id) {
                closest_lookups(closest_peers, &mut delta);
            }
        },
        QueryOutcome::GetProvidersErr => {
            if ctx.kad_queries.get_providers == Some(id) {
                delta.push_mutation(StateMutation::ClearGetProvidersQuery);
            }
        },
        QueryOutcome::StartProvidingOk => {
            if ctx.kad_queries.providing_agent == Some(id) && last {
                delta.push_mutation(StateMutation::ClearProvidingAgentQuery);
            }
        },
        QueryOutcome::StartProvidingErr => {
            if ctx.kad_queries.providing_agent == Some(id) {
                delta.push_mutation(StateMutation::ClearProvidingAgentQuery);
            }
        },
        _ => {},
    }
    assert(delta@ =~= query_effects(result@, id, last, ctx.kad_queries));
    out.append_all(delta);
}

/// Handles Kademlia events.
pub fn handle_kademlia(event: &SwarmInput, ctx: &HandlerCtx, at: Elapsed, effects: &mut Effects) -> (claimed: bool)
    ensures
        claimed == claims(HandlerKind::Kademlia, event@),
        final(effects)@ == old(effects)@.followed_by(
            match event@ {
                SwarmInputView::Kademlia(k) => kad_effects(k, ctx.kad_queries, at),
                _ => EffectsView::empty(),
            },
        ),
{
    let e = match event {
        SwarmInput::Kademlia(e) => e,
        _ => {
            proof {
                crate::effects::lemma_then_empty(effects@);
            }
            return false;
        },
    };
    let mut out = Effects::new();
    match e {
        KadInput::InboundRequest { request } => {
            out.push_log(LogKind::Kademlia(KadEventInfo::InboundRequest { request: request.clone() }), at);
        },
        KadInput::OutboundQueryProgressed { id, result, last } => {
            out.push_log(LogKind::Kademlia(KadEventInfo::OutboundQueryProgressed { id: *id }), at);
            handle_query_result(result, *id, *last, ctx, &mut out);
        },
        KadInput::RoutingUpdated { peer, addresses, is_new_peer, old_peer } => {
            out.push_log(
                LogKind::Kademlia(KadEventInfo::RoutingUpdated {
                    peer: peer.clone(),
                    is_new: *is_new_peer,
                    addresses: clone_strings(addresses),
                    old_peer: clone_opt(old_peer),
                }),
                at,
            );
        },
        KadInput::RoutablePeer { peer, address } => {
            out.push_log(
                LogKind::Kademlia(KadEventInfo::RoutablePeer { peer: peer.clone(), address: address.clone() }),
                at,
            );
        },
        KadInput::UnroutablePeer { peer } => {
            out.push_log(LogKind::Kademlia(KadEventInfo::UnroutablePeer { peer: peer.clone() }), at);
        },
        KadInput::PendingRoutablePeer { peer, .. } => {
            out.push_log(LogKind::Kademlia(KadEventInfo::PendingRoutablePeer { peer: peer.clone() }), at);
        },
        KadInput::ModeChanged { new_mode } => {
            out.push_log(LogKind::Kademlia(KadEventInfo::ModeChanged { new_mode: *new_mode }), at);
            out.push_kad(KadOp::SetMode(*new_mode));
        },
    }
    proof {
        crate::effects::lemma_then_empty(out@);
    }
    assert(out@ =~= kad_effects(e@, ctx.kad_queries, at));
    effects.append_all(out);
    true
}

/// Handles mDNS discovery events, looking only at the first record reported.
pub fn handle_mdns(event: &SwarmInput, ctx: &HandlerCtx, at: Elapsed, effects: &mut Effects) -> (claimed: bool)
    requires
        handleable(event@),
    ensures
        claimed == claims(HandlerKind::Mdns, event@),
        final(effects)@ == old(effects)@.followed_by(
            match event@ {
                SwarmInputView::Mdns(m) => mdns_effects(m, ctx.bind_address, at),
                _ => EffectsView::empty(),
            },
        ),
{
    let e = match event {
        SwarmInput::Mdns(e) => e,
        _ => {
            proof {
                crate::effects::lemma_then_empty(effects@);
            }
            return false;
        },
    };
    let mut out = Effects::new();
    match e {
        MdnsInput::Discovered(v) => {
            let r = &v[0];
            assert(r@ == v@.map_values(|x: crate::inputs::MdnsRecord| x@)[0]);
            out.push_log(
                LogKind::Mdns(MdnsEventInfo::Discovered { peer_id: r.peer_id.clone(), address: r.address.clone() }),
                at,
            );
            match extract_ip(&r.parts) {
                None => {},
                Some(ip) => {
                    match ctx.bind_address {
                        Some(b) => {
                            if ip_equals_v4(ip, b) {
                                out.push_dial(r.address.clone());
                            }
                        },
                        None => {},
                    }
                    out.push_published(NetworkEvent::NodeDiscovered { peer_id: r.peer_id.clone() });
                },
            }
        },
        MdnsInput::Expired(v) => {
            let r = &v[0];
            assert(r@ == v@.map_values(|x: crate::inputs::MdnsRecord| x@)[0]);
            out.push_log(
                LogKind::Mdns(MdnsEventInfo::Expired { peer_id: r.peer_id.clone(), address: r.address.clone() }),
                at,
            );
            out.push_published(NetworkEvent::NodeExpired { peer_id: r.peer_id.clone() });
        },
    }
    assert(out@ =~= mdns_effects(e@, ctx.bind_address, at));
    effects.append_all(out);
    true
}

/// Runs one handler of the chain on an event.
pub fn handle_with(
    kind: HandlerKind,
    event: &SwarmInput,
    ctx: &HandlerCtx,
    at: Elapsed,
    effects: &mut Effects,
) -> (claimed: bool)
    requires
        handleable(event@),
    ensures
        claimed == claims(kind, event@),
        final(effects)@ == old(effects)@.followed_by(
            handler_effects(
                kind,
                event@,
                ctx.self_peer_id@,
                ctx.bind_address,
                ctx.bootstrapped,
                ctx.kad_queries,
                ctx.connections.current(),
                at,
            ),
        ),
{
    match kind {
        HandlerKind::Core => handle_core(event, ctx, at, effects),
        HandlerKind::Identify => handle_identify(event, ctx, at, effects),
        HandlerKind::Kademlia => handle_kademlia(event, ctx, at, effects),
        HandlerKind::Mdns => handle_mdns(event, ctx, at, effects),
    }
}

/// The handler that owns an event, if any handler does.
pub open spec fn owner(e: SwarmInputView) -> Option<HandlerKind> {
    match e {
        SwarmInputView::Identify(_) => Some(HandlerKind::Identify),
        SwarmInputView::Kademlia(_) => Some(HandlerKind::Kademlia),
        SwarmInputView::Mdns(_) => Some(HandlerKind::Mdns),
        SwarmInputView::Other => None,
        _ => Some(HandlerKind::Core),
    }
}

/// At most one handler claims any event, and it is the event's owner.
pub proof fn lemma_claims_disjoint(e: SwarmInputView, h1: HandlerKind, h2: HandlerKind)
    requires
        claims(h1, e),
        claims(h2, e),
    ensures
        h1 == h2,
        owner(e) == Some(h1),
{
}

/// Every event but the unknown ones is claimed by some handler of the chain.
pub proof fn lemma_chain_covers(e: SwarmInputView)
    ensures
        (exists|i: int| 0 <= i < chain().len() && claims(#[trigger] chain()[i], e)) <==> !(e is Other),
{
    if !(e is Other) {
        let h = owner(e)->0;
        let i: int = match h {
            HandlerKind::Core => 0,
            HandlerKind::Identify => 1,
            HandlerKind::Kademlia => 2,
            HandlerKind::Mdns => 3,
        };
        assert(chain()[i] == h);
        assert(claims(chain()[i], e));
    }
}

/// What handling an event through the chain asks for: the effects of its
/// owner, nothing for an unknown event.
pub open spec fn event_effects(
    e: SwarmInputView,
    self_peer: Seq<char>,
    bind: Option<(u8, u8, u8, u8)>,
    bootstrapped: bool,
    q: KadQueries,
    connected: Set<Seq<char>>,
    at: Elapsed,
) -> EffectsView {
    match owner(e) {
        Some(h) => handler_effects(h, e, self_peer, bind, bootstrapped, q, connected, at),
        None => EffectsView::empty(),
    }
}

/// Walks the handler chain until one handler claims the event; returns the
/// effects it asked for and whether any handler claimed the event.
pub fn dispatch(event: &SwarmInput, ctx: &HandlerCtx, at: Elapsed) -> (r: (Effects, bool))
    requires
        handleable(event@),
    ensures
        r.1 == !(event@ is Other),
        r.0@ == event_effects(
            event@,
            ctx.self_peer_id@,
            ctx.bind_address,
            ctx.bootstrapped,
            ctx.kad_queries,
            ctx.connections.current(),
            at,
        ),
{
    let handlers = handler_chain();
    let mut effects = Effects::new();
    let mut i: usize = 0;
    while i < handlers.len()
        invariant
            handlers@ == chain(),
            i <= handlers@.len(),
            handleable(event@),
            forall|j: int| 0 <= j < i ==> !claims(#[trigger] chain()[j], event@),
            effects@ == EffectsView::empty(),
        decreases handlers@.len() - i,
    {
        let kind = handlers[i];
        let ghost before = effects@;
        if handle_with(kind, event, ctx, at, &mut effects) {
            proof {
                crate::effects::lemma_then_empty(effects@);
                lemma_claims_disjoint(event@, kind, kind);
            }
            return (effects, true);
        }
        proof {
            crate::effects::lemma_then_empty(before);
        }
        i += 1;
    }
    proof {
        lemma_chain_covers(event@);
        if !(event@ is Other) {
            let k = choose|k: int| 0 <= k < chain().len() && claims(#[trigger] chain()[k], event@);
            assert(!claims(chain()[k], event@));
        }
    }
    (effects, false)
}

} // verus!
