//! The verified part of a running node: its own state, the handling of swarm
//! events, the application of the effects handlers ask for, and the answers to
//! commands from the network.

use vstd::prelude::*;

use crate::effects::{log_views, ConnectionOp, ConnectionOpView, Effects, EffectsView, KadOp, KadOpView, LogKind, LogKindView, StateMutation};
use crate::events::records_view;
use crate::handlers::{HandlerCtx, KadQueries, dispatch, event_effects, handleable};
use crate::history::{Elapsed, HistoryView, KadMode, MessageHistory, bounded_push, strings_view, ALL_MAX_SIZE, MAX_SIZE, LogMessageView};
use crate::info::{IdentifyInfo, IdentifyInfoView, KBucketInfo, KademliaInfo, KademliaInfoView};
use crate::inputs::{SwarmInput, SwarmInputView};
use crate::state::{State, StateView};
use crate::tracker::ConnectionTracker;
use crate::events::NetworkEvent;
use crate::messages::{NodeCommand, NodeCommandView, NodeResponse, NodeResponseView};
use crate::stats::NodeStats;

verus! {

/// Records one log entry in the log of its protocol and in the combined log.
pub open spec fn record_spec(h: HistoryView, kind: LogKindView, at: Elapsed) -> HistoryView {
    match kind {
        LogKindView::Swarm(e) => HistoryView {
            swarm: bounded_push(h.swarm, (e, at), MAX_SIZE as nat),
            all: bounded_push(h.all, LogMessageView::Swarm { event: e, at }, ALL_MAX_SIZE as nat),
            ..h
        },
        LogKindView::Identify(e) => HistoryView {
            identify: bounded_push(h.identify, (e, at), MAX_SIZE as nat),
            all: bounded_push(h.all, LogMessageView::Identify { event: e, at }, ALL_MAX_SIZE as nat),
            ..h
        },
        LogKindView::Kademlia(e) => HistoryView {
            kademlia: bounded_push(h.kademlia, (e, at), MAX_SIZE as nat),
            all: bounded_push(h.all, LogMessageView::Kad { event: e, at }, ALL_MAX_SIZE as nat),
            ..h
        },
        LogKindView::Mdns(e) => HistoryView {
            mdns: bounded_push(h.mdns, (e, at), MAX_SIZE as nat),
            all: bounded_push(h.all, LogMessageView::Mdns { event: e, at }, ALL_MAX_SIZE as nat),
            ..h
        },
    }
}

/// Records log entries one after the other.
pub open spec fn record_all_spec(h: HistoryView, entries: Seq<(LogKindView, Elapsed)>) -> HistoryView
    decreases entries.len(),
{
    if entries.len() == 0 {
        h
    } else {
        record_spec(record_all_spec(h, entries.drop_last()), entries.last().0, entries.last().1)
    }
}

/// Records one log entry.
pub fn record_log(history: &mut MessageHistory, kind: LogKind, at: Elapsed)
    ensures
        final(history)@ == record_spec(old(history)@, kind@, at),
{
    match kind {
        LogKind::Swarm(e) => history.add_swarm_event(e, at),
        LogKind::Identify(e) => history.add_identify_event(e, at),
        LogKind::Kademlia(e) => history.add_kademlia_event(e, at),
        LogKind::Mdns(e) => history.add_mdns_event(e, at),
    }
}

/// Records all log entries, in order.
pub fn record_logs(history: &mut MessageHistory, entries: Vec<(LogKind, Elapsed)>)
    ensures
        final(history)@ == record_all_spec(
            old(history)@,
            log_views(entries@),
        ),
{
    let ghost all = log_views(entries@);
    let mut rest = entries;
    assert(all.len() == rest.len());
    let mut n: usize = 0;
    assert(all.subrange(0, 0) =~= Seq::<(LogKindView, Elapsed)>::empty());
    while rest.len() > 0
        invariant
            n + rest@.len() == all.len(),
            all.len() <= usize::MAX,
            log_views(rest@) =~= all.subrange(n as int, all.len() as int),
            history@ == record_all_spec(old(history)@, all.subrange(0, n as int)),
        decreases rest@.len(),
    {
        let ghost before = rest@;
        let (kind, at) = rest.remove(0);
        assert((kind@, at) == all[n as int]) by {
            assert(log_views(before)[0] == all[n as int]);
        }
        record_log(history, kind, at);
        proof {
            assert(all.subrange(0, n + 1).drop_last() =~= all.subrange(0, n as int));
            assert(rest@ =~= before.subrange(1, before.len() as int));
            assert forall|k: int| 0 <= k < rest@.len() implies
                #[trigger] log_views(rest@)[k] == all.subrange(n + 1, all.len() as int)[k]
            by {
                assert(rest@[k] == before[k + 1]);
                assert(log_views(before)[k + 1]
                    == all.subrange(n as int, all.len() as int)[k + 1]);
            }
            assert(log_views(rest@) =~= all.subrange(n + 1, all.len() as int));
        }
        n += 1;
    }
    assert(all.subrange(0, n as int) =~= all);
}

/// The result after a node has stopped running.
#[derive(Clone, Copy, Debug, PartialEq, Eq, Structural)]
pub enum NodeResult {
    Success,
    Killed,
}

/// What the swarm did for a node command before the node replies.
#[derive(Debug)]
pub enum SwarmReply {
    /// Whether dialing succeeded.
    Dialed(bool),
    /// Whether disconnecting succeeded.
    Disconnected(bool),
    /// The current closest local peers and k-buckets.
    KadSnapshot { closest_peers: Vec<String>, buckets: Vec<KBucketInfo> },
    /// Whether storing the record succeeded.
    Put(bool),
    /// The locally stored records.
    Records(Vec<(String, String)>),
    /// The command needed nothing from the swarm.
    Nothing,
}

/// Whether a swarm reply is the kind a command asks for.
pub open spec fn reply_fits(c: NodeCommandView, r: SwarmReply) -> bool {
    match c {
        NodeCommandView::ConnectTo { .. } => r is Dialed,
        NodeCommandView::DisconnectFrom { .. } => r is Disconnected,
        NodeCommandView::GetKademliaInfo => r is KadSnapshot,
        NodeCommandView::PutRecord { .. } => r is Put,
        NodeCommandView::ListRecords => r is Records,
        _ => r is Nothing,
    }
}

/// Effect of a connection change on the set of connected peers.
pub open spec fn connection_step(s: Set<Seq<char>>, op: ConnectionOpView) -> Set<Seq<char>> {
    match op {
        ConnectionOpView::AddActive { peer } => s.insert(peer),
        ConnectionOpView::RemoveActive { peer } => s.remove(peer),
    }
}

/// Effect of connection changes, applied in order.
pub open spec fn connection_steps(s: Set<Seq<char>>, ops: Seq<ConnectionOpView>) -> Set<Seq<char>>
    decreases ops.len(),
{
    if ops.len() == 0 {
        s
    } else {
        connection_step(connection_steps(s, ops.drop_last()), ops.last())
    }
}

/// Whether a Kademlia operation only touches the node's own information.
pub open spec fn kad_op_local(op: KadOpView) -> bool {
    op is SetMode || op is SetBootstrapped
}

/// The node's Kademlia information after the local operations among `ops`,
/// applied in order: the last mode and the last bootstrap flag set win.
pub open spec fn kad_info_after(info: KademliaInfoView, ops: Seq<KadOpView>) -> KademliaInfoView
    decreases ops.len(),
{
    if ops.len() == 0 {
        info
    } else {
        let prev = kad_info_after(info, ops.drop_last());
        match ops.last() {
            KadOpView::SetMode(m) => KademliaInfoView { mode: m, ..prev },
            KadOpView::SetBootstrapped(b) => KademliaInfoView { bootstrapped: b, ..prev },
            _ => prev,
        }
    }
}

/// The operations among `ops` that need the swarm, in order.
pub open spec fn swarm_kad_ops(ops: Seq<KadOpView>) -> Seq<KadOpView>
    decreases ops.len(),
{
    if ops.len() == 0 {
        ops
    } else {
        let prev = swarm_kad_ops(ops.drop_last());
        if kad_op_local(ops.last()) {
            prev
        } else {
            prev.push(ops.last())
        }
    }
}

/// The abstract forms of a list of Kademlia operations.
pub open spec fn kad_ops_view(v: Seq<KadOp>) -> Seq<KadOpView> {
    v.map_values(|o: KadOp| o@)
}

/// The verified state of a running node: everything but its libp2p swarm,
/// its channels and its shared log.
pub struct NodeCore {
    /// The node's peer id, as text.
    pub peer_id: String,
    /// The address the node listens on.
    pub listen_address: String,
    /// The IPv4 address the node binds to, in TCP mode.
    pub bind_address: Option<(u8, u8, u8, u8)>,
    /// The Kademlia mode the node was started in.
    pub kad_mode: KadMode,
    /// Local identify information.
    pub identify_info: IdentifyInfo,
    /// Local Kademlia information.
    pub kad_info: KademliaInfo,
    /// Active connections and peers known at build time.
    pub connection_tracker: ConnectionTracker,
    /// Run state.
    pub state: State,
    /// Kademlia queries being tracked.
    pub kad_queries: KadQueries,
    /// Number of swarm events received.
    pub stats: NodeStats,
}

impl NodeCore {
    /// What the node was built with and nothing that runs changes: its
    /// identity, addresses, start mode, identify information and the peers
    /// it knew at build time.
    pub open spec fn keeps_identity(self, before: NodeCore) -> bool {
        &&& self.peer_id == before.peer_id
        &&& self.listen_address == before.listen_address
        &&& self.bind_address == before.bind_address
        &&& self.kad_mode == before.kad_mode
        &&& self.identify_info@ == before.identify_info@
        &&& self.connection_tracker.known_set() == before.connection_tracker.known_set()
    }

    /// A node that is about to run: nothing received, no connection, no
    /// tracked query, not stopped, killed or bootstrapped; it knows the given
    /// peer addresses.
    pub fn new(
        peer_id: String,
        listen_address: String,
        bind_address: Option<(u8, u8, u8, u8)>,
        kad_mode: KadMode,
        identify_info: IdentifyInfo,
        kad_info: KademliaInfo,
        known_peers: Vec<String>,
        start: std::time::Instant,
        cancellation_token: tokio_util::sync::CancellationToken,
    ) -> (n: Self)
        ensures
            n.peer_id == peer_id,
            n.listen_address == listen_address,
            n.bind_address == bind_address,
            n.kad_mode == kad_mode,
            n.identify_info@ == identify_info@,
            n.kad_info@ == kad_info@,
            n.connection_tracker.current() == Set::<Seq<char>>::empty(),
            n.connection_tracker.known_set() == strings_view(known_peers@).to_set(),
            n.state@ == (StateView { quit: false, killed: false, bootstrapped: false, start }),
            n.state.token() == cancellation_token,
            n.kad_queries == (KadQueries { bootstrap: None, providing_agent: None, get_providers: None }),
            n.stats@ == 0,
    {
        let mut connection_tracker = ConnectionTracker::new();
        connection_tracker.set_known(known_peers);
        NodeCore {
            peer_id,
            listen_address,
            bind_address,
            kad_mode,
            identify_info,
            kad_info,
            connection_tracker,
            state: State::new(start, cancellation_token),
            kad_queries: KadQueries::new(),
            stats: NodeStats::new(),
        }
    }

    /// The event announcing that this node runs.
    pub fn running_event(&self) -> (e: NetworkEvent)
        ensures
            e@ == (crate::events::NetworkEventView::NodeRunning { peer_id: self.peer_id@, mode: self.kad_mode }),
    {
        NetworkEvent::NodeRunning { peer_id: self.peer_id.clone(), mode: self.kad_mode }
    }

    /// The event announcing that this node stopped.
    pub fn stopped_event(&self) -> (e: NetworkEvent)
        ensures
            e@ == (crate::events::NetworkEventView::NodeStopped { peer_id: self.peer_id@ }),
    {
        NetworkEvent::NodeStopped { peer_id: self.peer_id.clone() }
    }

    /// How the node's run ended: killed by a command, or a normal stop.
    pub fn run_result(&self) -> (r: NodeResult)
        ensures
            r == if self.state@.killed { NodeResult::Killed } else { NodeResult::Success },
    {
        if self.state.killed() {
            NodeResult::Killed
        } else {
            NodeResult::Success
        }
    }

    /// Counts a swarm event and walks the handler chain over it. Returns the
    /// effects asked for and whether a handler claimed the event.
    pub fn handle_swarm_event(&mut self, event: &SwarmInput, at: Elapsed) -> (r: (Effects, bool))
        requires
            handleable(event@),
            old(self).stats@ < u64::MAX,
        ensures
            final(self).stats@ == old(self).stats@ + 1,
            final(self).state@ == old(self).state@,
            final(self).state.token() == old(self).state.token(),
            final(self).kad_queries == old(self).kad_queries,
            final(self).connection_tracker.current() == old(self).connection_tracker.current(),
            final(self).keeps_identity(*old(self)),
            final(self).kad_info@ == old(self).kad_info@,
            r.1 == !(event@ is Other),
            r.0@ == event_effects(
                event@,
                old(self).peer_id@,
                old(self).bind_address,
                old(self).state@.bootstrapped,
                old(self).kad_queries,
                old(self).connection_tracker.current(),
                at,
            ),
    {
        self.stats.inc_recvd();
        let ctx = HandlerCtx {
            self_peer_id: self.peer_id.clone(),
            bind_address: self.bind_address,
            bootstrapped: self.state.bootstrapped(),
            kad_queries: self.kad_queries,
            connections: &self.connection_tracker,
        };
        dispatch(event, &ctx, at)
    }

    /// Applies the Kademlia operations of an event's effects: those that only
    /// touch the node's own information are applied here, in order; those
    /// that need the swarm are handed back, in order.
    pub fn apply_kad_ops(&mut self, ops: Vec<KadOp>) -> (swarm_ops: Vec<KadOp>)
        ensures
            final(self).kad_info@ == kad_info_after(old(self).kad_info@, kad_ops_view(ops@)),
            kad_ops_view(swarm_ops@) == swarm_kad_ops(kad_ops_view(ops@)),
            final(self).state@ == old(self).state@,
            final(self).state.token() == old(self).state.token(),
            final(self).kad_queries == old(self).kad_queries,
            final(self).connection_tracker.current() == old(self).connection_tracker.current(),
            final(self).keeps_identity(*old(self)),
            final(self).stats@ == old(self).stats@,
    {
        let ghost all = kad_ops_view(ops@);
        let mut rest = ops;
        let mut out: Vec<KadOp> = Vec::new();
        let ghost mut done: int = 0;
        proof {
            assert(all.subrange(0, 0) =~= Seq::<KadOpView>::empty());
            assert(kad_ops_view(rest@) =~= all.subrange(0, all.len() as int));
        }
        while rest.len() > 0
            invariant
                0 <= done <= all.len(),
                kad_ops_view(rest@) == all.subrange(done, all.len() as int),
                self.kad_info@ == kad_info_after(old(self).kad_info@, all.subrange(0, done)),
                kad_ops_view(out@) == swarm_kad_ops(all.subrange(0, done)),
                self.state@ == old(self).state@,
                self.state.token() == old(self).state.token(),
                self.kad_queries == old(self).kad_queries,
                self.connection_tracker.current() == old(self).connection_tracker.current(),
                self.keeps_identity(*old(self)),
                self.stats@ == old(self).stats@,
            decreases rest@.len(),
        {
            let ghost before_rest = rest@;
            let op = rest.remove(0);
            proof {
                assert(kad_ops_view(before_rest).len() == before_rest.len());
                assert(done < all.len());
                assert(rest@.len() + 1 == before_rest.len());
                assert(kad_ops_view(before_rest)[0] == op@);
                assert(all.subrange(done, all.len() as int)[0] == all[done]);
                assert(all[done] == op@);
                assert(all.subrange(0, done + 1).drop_last() =~= all.subrange(0, done));
                assert(all.subrange(0, done + 1).last() == op@);
                assert forall|i: int| 0 <= i < rest@.len() implies kad_ops_view(rest@)[i]
                    == all.subrange(done + 1, all.len() as int)[i] by {
                    assert(rest@[i] == before_rest[i + 1]);
                    assert(kad_ops_view(before_rest)[i + 1] == all.subrange(done, all.len() as int)[i + 1]);
                }
                assert(kad_ops_view(rest@) =~= all.subrange(done + 1, all.len() as int));
            }
            let local = self.apply_kad_op_locally(&op);
            if !local {
                let ghost before_out = out@;
                out.push(op);
                proof {
                    assert(kad_ops_view(out@) =~= kad_ops_view(before_out).push(op@));
                }
            }
            proof {
                done = done + 1;
            }
        }
        proof {
            assert(all.subrange(0, done) =~= all);
        }
        out
    }

    /// Applies a Kademlia operation that only touches the node's own
    /// information; returns `false`, changing nothing, for operations that
    /// need the swarm.
    pub fn apply_kad_op_locally(&mut self, op: &KadOp) -> (local: bool)
        ensures
            local == (op@ is SetMode || op@ is SetBootstrapped),
            final(self).kad_info@ == match op@ {
                KadOpView::SetMode(m) => KademliaInfoView { mode: m, ..old(self).kad_info@ },
                KadOpView::SetBootstrapped(b) => KademliaInfoView { bootstrapped: b, ..old(self).kad_info@ },
                _ => old(self).kad_info@,
            },
            final(self).state@ == old(self).state@,
            final(self).state.token() == old(self).state.token(),
            final(self).kad_queries == old(self).kad_queries,
            final(self).connection_tracker.current() == old(self).connection_tracker.current(),
            final(self).keeps_identity(*old(self)),
            final(self).stats@ == old(self).stats@,
    {
        match op {
            KadOp::SetMode(m) => {
                self.kad_info.set_mode(*m);
                true
            },
            KadOp::SetBootstrapped(b) => {
                self.kad_info.set_bootstrapped(*b);
                true
            },
            _ => false,
        }
    }

    /// Tracks the bootstrap query just started.
    pub fn note_bootstrap_query(&mut self, id: u64)
        ensures
            final(self).kad_queries == (KadQueries { bootstrap: Some(id), ..old(self).kad_queries }),
            final(self).keeps_identity(*old(self)),
            final(self).kad_info@ == old(self).kad_info@,
            final(self).stats@ == old(self).stats@,
            final(self).state@ == old(self).state@,
            final(self).state.token() == old(self).state.token(),
            final(self).connection_tracker.current() == old(self).connection_tracker.current(),
    {
        self.kad_queries.bootstrap = Some(id);
    }

    /// Tracks the provider lookup just started.
    pub fn note_get_providers_query(&mut self, id: u64)
        ensures
            final(self).kad_queries == (KadQueries { get_providers: Some(id), ..old(self).kad_queries }),
            final(self).keeps_identity(*old(self)),
            final(self).kad_info@ == old(self).kad_info@,
            final(self).stats@ == old(self).stats@,
            final(self).state@ == old(self).state@,
            final(self).state.token() == old(self).state.token(),
            final(self).connection_tracker.current() == old(self).connection_tracker.current(),
    {
        self.kad_queries.get_providers = Some(id);
    }

    /// Applies connection changes in order.
    pub fn apply_connection_ops(&mut self, ops: Vec<ConnectionOp>)
        ensures
            final(self).connection_tracker.current() == connection_steps(
                old(self).connection_tracker.current(),
                ops@.map_values(|o: ConnectionOp| o@),
            ),
            final(self).keeps_identity(*old(self)),
            final(self).kad_info@ == old(self).kad_info@,
            final(self).stats@ == old(self).stats@,
            final(self).state@ == old(self).state@,
            final(self).state.token() == old(self).state.token(),
            final(self).kad_queries == old(self).kad_queries,
    {
        let ghost all = ops@.map_values(|o: ConnectionOp| o@);
        let mut i: usize = 0;
        assert(all.subrange(0, 0) =~= Seq::<ConnectionOpView>::empty());
        while i < ops.len()
            invariant
                i <= ops@.len(),
                all == ops@.map_values(|o: ConnectionOp| o@),
                self.connection_tracker.current() == connection_steps(
                    old(self).connection_tracker.current(),
                    all.subrange(0, i as int),
                ),
                self.keeps_identity(*old(self)),
                self.kad_info@ == old(self).kad_info@,
                self.stats@ == old(self).stats@,
                self.state@ == old(self).state@,
                self.state.token() == old(self).state.token(),
                self.kad_queries == old(self).kad_queries,
            decreases ops@.len() - i,
        {
            match &ops[i] {
                ConnectionOp::AddActive { peer } => self.connection_tracker.add_active_peer(peer.clone()),
                ConnectionOp::RemoveActive { peer } => self.connection_tracker.remove_active_peer(peer),
            }
            proof {
                assert(all.subrange(0, i + 1).drop_last() =~= all.subrange(0, i as int));
            }
            i += 1;
        }
        assert(all.subrange(0, i as int) =~= all);
    }

    /// Applies changes to the node's own state: marking the bootstrap done
    /// and forgetting finished queries.
    pub fn apply_state_mutations(&mut self, mutations: Vec<StateMutation>)
        ensures
            final(self).state@.bootstrapped == (old(self).state@.bootstrapped
                || mutations@.contains(StateMutation::MarkBootstrapped)),
            final(self).state@.quit == old(self).state@.quit,
            final(self).state@.killed == old(self).state@.killed,
            final(self).state@.start == old(self).state@.start,
            final(self).state.token() == old(self).state.token(),
            final(self).kad_queries.bootstrap == if mutations@.contains(StateMutation::ClearBootstrapQuery) {
                None
            } else {
                old(self).kad_queries.bootstrap
            },
            final(self).kad_queries.get_providers == if mutations@.contains(
                StateMutation::ClearGetProvidersQuery,
            ) {
                None
            } else {
                old(self).kad_queries.get_providers
            },
            final(self).kad_queries.providing_agent == if mutations@.contains(
                StateMutation::ClearProvidingAgentQuery,
            ) {
                None
            } else {
                old(self).kad_queries.providing_agent
            },
            final(self).connection_tracker.current() == old(self).connection_tracker.current(),
            final(self).keeps_identity(*old(self)),
            final(self).kad_info@ == old(self).kad_info@,
            final(self).stats@ == old(self).stats@,
    {
        let mut i: usize = 0;
        while i < mutations.len()
            invariant
                i <= mutations@.len(),
                self.state@.bootstrapped == (old(self).state@.bootstrapped
                    || mutations@.subrange(0, i as int).contains(StateMutation::MarkBootstrapped)),
                self.state@.quit == old(self).state@.quit,
                self.state@.killed == old(self).state@.killed,
                self.state@.start == old(self).state@.start,
                self.state.token() == old(self).state.token(),
                self.kad_queries.bootstrap == if mutations@.subrange(0, i as int).contains(
                    StateMutation::ClearBootstrapQuery,
                ) {
                    None
                } else {
                    old(self).kad_queries.bootstrap
                },
                self.kad_queries.get_providers == if mutations@.subrange(0, i as int).contains(
                    StateMutation::ClearGetProvidersQuery,
                ) {
                    None
                } else {
                    old(self).kad_queries.get_providers
                },
                self.kad_queries.providing_agent == if mutations@.subrange(0, i as int).contains(
                    StateMutation::ClearProvidingAgentQuery,
                ) {
                    None
                } else {
                    old(self).kad_queries.providing_agent
                },
                self.connection_tracker.current() == old(self).connection_tracker.current(),
                self.keeps_identity(*old(self)),
                self.kad_info@ == old(self).kad_info@,
                self.stats@ == old(self).stats@,
            decreases mutations@.len() - i,
        {
            let m = mutations[i];
            match m {
                StateMutation::MarkBootstrapped => self.state.bootstrap(),
                StateMutation::ClearBootstrapQuery => self.kad_queries.bootstrap = None,
                StateMutation::ClearGetProvidersQuery => self.kad_queries.get_providers = None,
                StateMutation::ClearProvidingAgentQuery => self.kad_queries.providing_agent = None,
            }
            proof {
                let pre = mutations@.subrange(0, i as int);
                let post = mutations@.subrange(0, i + 1);
                assert(post =~= pre.push(m));
                assert forall|x: StateMutation| post.contains(x) <==> (pre.contains(x) || x == m) by {
                    if post.contains(x) && x != m {
                        let k = choose|k: int| 0 <= k < post.len() && post[k] == x;
                        assert(pre[k] == x);
                    }
                    if pre.contains(x) {
                        let k = choose|k: int| 0 <= k < pre.len() && pre[k] == x;
                        assert(post[k] == x);
                    }
                    if x == m {
                        assert(post[i as int] == x);
                    }
                }
            }
            i += 1;
        }
        assert(mutations@.subrange(0, i as int) =~= mutations@);
    }

    /// Answers a command from the network, given what the swarm did for it.
    pub fn respond(&mut self, command: NodeCommand, reply: SwarmReply) -> (r: NodeResponse)
        requires
            reply_fits(command@, reply),
        ensures
            r@ == match command@ {
                NodeCommandView::ConnectTo { peer } =>
                    if reply->Dialed_0 { NodeResponseView::Dialed { addr: peer } } else { NodeResponseView::Failed },
                NodeCommandView::DisconnectFrom { peer } =>
                    if reply->Disconnected_0 {
                        NodeResponseView::Disconnected { peer }
                    } else {
                        NodeResponseView::Failed
                    },
                NodeCommandView::GetIdentifyInfo => NodeResponseView::IdentifyInfo { info: old(self).identify_info@ },
                NodeCommandView::GetKademliaInfo => NodeResponseView::KademliaInfo { info: final(self).kad_info@ },
                NodeCommandView::PutRecord { .. } =>
                    if reply->Put_0 { NodeResponseView::RecordPlaced } else { NodeResponseView::Failed },
                NodeCommandView::GetRecord { .. } => NodeResponseView::GetRecordPlaced,
                NodeCommandView::ListRecords => NodeResponseView::RecordsList {
                    records: records_view(reply->Records_0@),
                },
                NodeCommandView::Stop => NodeResponseView::Stopped,
            },
            final(self).kad_info@ == match reply {
                SwarmReply::KadSnapshot { closest_peers, buckets } => KademliaInfoView {
                    closest_peers: strings_view(closest_peers@),
                    bucket_info: buckets@,
                    ..old(self).kad_info@
                },
                _ => old(self).kad_info@,
            },
            final(self).state@ == if command@ is Stop {
                StateView { quit: true, killed: true, ..old(self).state@ }
            } else {
                old(self).state@
            },
            final(self).state.token() == old(self).state.token(),
            final(self).kad_queries == old(self).kad_queries,
            final(self).connection_tracker.current() == old(self).connection_tracker.current(),
            final(self).keeps_identity(*old(self)),
            final(self).stats@ == old(self).stats@,
    {
        match command {
            NodeCommand::ConnectTo { peer } => {
                match reply {
                    SwarmReply::Dialed(true) => NodeResponse::Dialed { addr: peer },
                    _ => NodeResponse::Failed,
                }
            },
            NodeCommand::DisconnectFrom { peer } => {
                match reply {
                    SwarmReply::Disconnected(true) => NodeResponse::Disconnected { peer },
                    _ => NodeResponse::Failed,
                }
            },
            NodeCommand::GetIdentifyInfo => NodeResponse::IdentifyInfo { info: self.identify_info.duplicate() },
            NodeCommand::GetKademliaInfo => {
                match reply {
                    SwarmReply::KadSnapshot { closest_peers, buckets } => {
                        self.kad_info.set_closest_peers(closest_peers);
                        self.kad_info.set_bucket_info(buckets);
                    },
                    _ => {},
                }
                NodeResponse::KademliaInfo { info: self.kad_info.duplicate() }
            },
            NodeCommand::PutRecord { .. } => {
                match reply {
                    SwarmReply::Put(true) => NodeResponse::RecordPlaced,
                    _ => NodeResponse::Failed,
                }
            },
            NodeCommand::GetRecord { .. } => NodeResponse::GetRecordPlaced,
            NodeCommand::ListRecords => {
                match reply {
                    SwarmReply::Records(records) => NodeResponse::RecordsList { records },
                    _ => NodeResponse::RecordsList { records: Vec::new() },
                }
            },
            NodeCommand::Stop => {
                self.state.stop();
                self.state.kill();
                NodeResponse::Stopped
            },
        }
    }
}

} // verus!
