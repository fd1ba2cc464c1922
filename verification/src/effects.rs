//! What a swarm event handler asks its node to do, described as data.

use vstd::prelude::*;

use crate::events::{NetworkEvent, NetworkEventView, events_view};
use crate::history::{
    Elapsed, IdentifyEventInfo, IdentifyEventView, KadEventInfo, KadEventView, KadMode, MdnsEventInfo,
    MdnsEventView, SwarmEventInfo, SwarmEventView, strings_view,
};

verus! {

/// A log entry to record, by protocol.
#[derive(Clone, Debug)]
pub enum LogKind {
    Swarm(SwarmEventInfo),
    Identify(IdentifyEventInfo),
    Kademlia(KadEventInfo),
    Mdns(MdnsEventInfo),
}

/// Abstract form of [`LogKind`].
pub enum LogKindView {
    Swarm(SwarmEventView),
    Identify(IdentifyEventView),
    Kademlia(KadEventView),
    Mdns(MdnsEventView),
}

impl View for LogKind {
    type V = LogKindView;

    open spec fn view(&self) -> LogKindView {
        match self {
            LogKind::Swarm(e) => LogKindView::Swarm(e@),
            LogKind::Identify(e) => LogKindView::Identify(e@),
            LogKind::Kademlia(e) => LogKindView::Kademlia(e@),
            LogKind::Mdns(e) => LogKindView::Mdns(e@),
        }
    }
}

/// An operation on the node's Kademlia behaviour.
#[derive(Clone, Debug)]
pub enum KadOp {
    AddAddress { peer: String, addr: String },
    RemovePeer { peer: String },
    Bootstrap,
    GetProviders { key: String },
    GetClosestPeers { peer: String },
    SetMode(KadMode),
    SetBootstrapped(bool),
}

/// Abstract form of [`KadOp`].
pub enum KadOpView {
    AddAddress { peer: Seq<char>, addr: Seq<char> },
    RemovePeer { peer: Seq<char> },
    Bootstrap,
    GetProviders { key: Seq<char> },
    GetClosestPeers { peer: Seq<char> },
    SetMode(KadMode),
    SetBootstrapped(bool),
}

impl View for KadOp {
    type V = KadOpView;

    open spec fn view(&self) -> KadOpView {
        match self {
            KadOp::AddAddress { peer, addr } => KadOpView::AddAddress { peer: peer@, addr: addr@ },
            KadOp::RemovePeer { peer } => KadOpView::RemovePeer { peer: peer@ },
            KadOp::Bootstrap => KadOpView::Bootstrap,
            KadOp::GetProviders { key } => KadOpView::GetProviders { key: key@ },
            KadOp::GetClosestPeers { peer } => KadOpView::GetClosestPeers { peer: peer@ },
            KadOp::SetMode(m) => KadOpView::SetMode(*m),
            KadOp::SetBootstrapped(b) => KadOpView::SetBootstrapped(*b),
        }
    }
}

/// A change to the set of active connections.
#[derive(Clone, Debug)]
pub enum ConnectionOp {
    AddActive { peer: String },
    RemoveActive { peer: String },
}

/// Abstract form of [`ConnectionOp`].
pub enum ConnectionOpView {
    AddActive { peer: Seq<char> },
    RemoveActive { peer: Seq<char> },
}

impl View for ConnectionOp {
    type V = ConnectionOpView;

    open spec fn view(&self) -> ConnectionOpView {
        match self {
            ConnectionOp::AddActive { peer } => ConnectionOpView::AddActive { peer: peer@ },
            ConnectionOp::RemoveActive { peer } => ConnectionOpView::RemoveActive { peer: peer@ },
        }
    }
}

/// A change to the node's own state.
#[derive(Clone, Copy, Debug, PartialEq, Eq, Structural)]
pub enum StateMutation {
    MarkBootstrapped,
    ClearBootstrapQuery,
    ClearGetProvidersQuery,
    ClearProvidingAgentQuery,
}

/// Everything handlers ask the node to do; applied in the order the fields
/// are declared.
#[derive(Debug)]
pub struct Effects {
    pub log_entries: Vec<(LogKind, Elapsed)>,
    pub dials: Vec<String>,
    pub kad_ops: Vec<KadOp>,
    pub connection_ops: Vec<ConnectionOp>,
    pub state_mutations: Vec<StateMutation>,
    pub published: Vec<NetworkEvent>,
}

/// Abstract form of [`Effects`].
#[verifier::ext_equal]
pub struct EffectsView {
    pub log_entries: Seq<(LogKindView, Elapsed)>,
    pub dials: Seq<Seq<char>>,
    pub kad_ops: Seq<KadOpView>,
    pub connection_ops: Seq<ConnectionOpView>,
    pub state_mutations: Seq<StateMutation>,
    pub published: Seq<NetworkEventView>,
}

impl EffectsView {
    /// No effects at all.
    pub open spec fn empty() -> EffectsView {
        EffectsView {
            log_entries: Seq::empty(),
            dials: Seq::empty(),
            kad_ops: Seq::empty(),
            connection_ops: Seq::empty(),
            state_mutations: Seq::empty(),
            published: Seq::empty(),
        }
    }

    /// `self` followed by `other`, field by field.
    pub open spec fn followed_by(self, other: EffectsView) -> EffectsView {
        EffectsView {
            log_entries: self.log_entries + other.log_entries,
            dials: self.dials + other.dials,
            kad_ops: self.kad_ops + other.kad_ops,
            connection_ops: self.connection_ops + other.connection_ops,
            state_mutations: self.state_mutations + other.state_mutations,
            published: self.published + other.published,
        }
    }

    /// Only a log entry.
    pub open spec fn log(kind: LogKindView, at: Elapsed) -> EffectsView {
        EffectsView { log_entries: seq![(kind, at)], ..EffectsView::empty() }
    }

    /// Only a dial.
    pub open spec fn dial(addr: Seq<char>) -> EffectsView {
        EffectsView { dials: seq![addr], ..EffectsView::empty() }
    }

    /// Only a Kademlia operation.
    pub open spec fn kad(op: KadOpView) -> EffectsView {
        EffectsView { kad_ops: seq![op], ..EffectsView::empty() }
    }

    /// Only a connection change.
    pub open spec fn connection(op: ConnectionOpView) -> EffectsView {
        EffectsView { connection_ops: seq![op], ..EffectsView::empty() }
    }

    /// Only a state change.
    pub open spec fn mutation(m: StateMutation) -> EffectsView {
        EffectsView { state_mutations: seq![m], ..EffectsView::empty() }
    }

    /// Only a published event.
    pub open spec fn publish(e: NetworkEventView) -> EffectsView {
        EffectsView { published: seq![e], ..EffectsView::empty() }
    }
}

/// The empty effects are neutral for `then`.
pub proof fn lemma_then_empty(e: EffectsView)
    ensures
        e.followed_by(EffectsView::empty()) == e,
        EffectsView::empty().followed_by(e) == e,
{
    assert(e.log_entries + Seq::empty() =~= e.log_entries);
    assert(e.dials + Seq::empty() =~= e.dials);
    assert(e.kad_ops + Seq::empty() =~= e.kad_ops);
    assert(e.connection_ops + Seq::empty() =~= e.connection_ops);
    assert(e.state_mutations + Seq::empty() =~= e.state_mutations);
    assert(e.published + Seq::empty() =~= e.published);
    assert(Seq::empty() + e.log_entries =~= e.log_entries);
    assert(Seq::empty() + e.dials =~= e.dials);
    assert(Seq::empty() + e.kad_ops =~= e.kad_ops);
    assert(Seq::empty() + e.connection_ops =~= e.connection_ops);
    assert(Seq::empty() + e.state_mutations =~= e.state_mutations);
    assert(Seq::empty() + e.published =~= e.published);
}

/// `then` is associative.
pub proof fn lemma_then_assoc(a: EffectsView, b: EffectsView, c: EffectsView)
    ensures
        a.followed_by(b).followed_by(c) == a.followed_by(b.followed_by(c)),
{
    assert(a.followed_by(b).followed_by(c).log_entries =~= a.followed_by(b.followed_by(c)).log_entries);
    assert(a.followed_by(b).followed_by(c).dials =~= a.followed_by(b.followed_by(c)).dials);
    assert(a.followed_by(b).followed_by(c).kad_ops =~= a.followed_by(b.followed_by(c)).kad_ops);
    assert(a.followed_by(b).followed_by(c).connection_ops =~= a.followed_by(b.followed_by(c)).connection_ops);
    assert(a.followed_by(b).followed_by(c).state_mutations =~= a.followed_by(b.followed_by(c)).state_mutations);
    assert(a.followed_by(b).followed_by(c).published =~= a.followed_by(b.followed_by(c)).published);
}

/// The views of a list of log entries.
pub open spec fn log_views(s: Seq<(LogKind, Elapsed)>) -> Seq<(LogKindView, Elapsed)> {
    s.map_values(|p: (LogKind, Elapsed)| (p.0@, p.1))
}

impl View for Effects {
    type V = EffectsView;

    open spec fn view(&self) -> EffectsView {
        EffectsView {
            log_entries: log_views(self.log_entries@),
            dials: strings_view(self.dials@),
            kad_ops: self.kad_ops@.map_values(|o: KadOp| o@),
            connection_ops: self.connection_ops@.map_values(|o: ConnectionOp| o@),
            state_mutations: self.state_mutations@,
            published: events_view(self.published@),
        }
    }
}

impl Effects {
    /// No effects.
    pub fn new() -> (e: Self)
        ensures
            e@ == EffectsView::empty(),
    {
        let e = Effects {
            log_entries: Vec::new(),
            dials: Vec::new(),
            kad_ops: Vec::new(),
            connection_ops: Vec::new(),
            state_mutations: Vec::new(),
            published: Vec::new(),
        };
        assert(e@.log_entries =~= Seq::empty());
        assert(e@.dials =~= Seq::empty());
        assert(e@.kad_ops =~= Seq::empty());
        assert(e@.connection_ops =~= Seq::empty());
        assert(e@.published =~= Seq::empty());
        e
    }

    /// Records a log entry.
    pub fn push_log(&mut self, kind: LogKind, at: Elapsed)
        ensures
            final(self)@ == old(self)@.followed_by(EffectsView::log(kind@, at)),
    {
        self.log_entries.push((kind, at));
        assert(self@.log_entries =~= old(self)@.log_entries + seq![(kind@, at)]);
        assert(self@.dials =~= old(self)@.dials + Seq::empty());
        assert(self@.kad_ops =~= old(self)@.kad_ops + Seq::empty());
        assert(self@.connection_ops =~= old(self)@.connection_ops + Seq::empty());
        assert(self@.state_mutations =~= old(self)@.state_mutations + Seq::empty());
        assert(self@.published =~= old(self)@.published + Seq::empty());
    }

    /// Asks for a dial.
    pub fn push_dial(&mut self, addr: String)
        ensures
            final(self)@ == old(self)@.followed_by(EffectsView::dial(addr@)),
    {
        self.dials.push(addr);
        assert(self@.log_entries =~= old(self)@.log_entries + Seq::empty());
        assert(self@.dials =~= old(self)@.dials + seq![addr@]);
        assert(self@.kad_ops =~= old(self)@.kad_ops + Seq::empty());
        assert(self@.connection_ops =~= old(self)@.connection_ops + Seq::empty());
        assert(self@.state_mutations =~= old(self)@.state_mutations + Seq::empty());
        assert(self@.published =~= old(self)@.published + Seq::empty());
    }

    /// Asks for a Kademlia operation.
    pub fn push_kad(&mut self, op: KadOp)
        ensures
            final(self)@ == old(self)@.followed_by(EffectsView::kad(op@)),
    {
        self.kad_ops.push(op);
        assert(self@.log_entries =~= old(self)@.log_entries + Seq::empty());
        assert(self@.dials =~= old(self)@.dials + Seq::empty());
        assert(self@.kad_ops =~= old(self)@.kad_ops + seq![op@]);
        assert(self@.connection_ops =~= old(self)@.connection_ops + Seq::empty());
        assert(self@.state_mutations =~= old(self)@.state_mutations + Seq::empty());
        assert(self@.published =~= old(self)@.published + Seq::empty());
    }

    /// Asks for a connection change.
    pub fn push_connection(&mut self, op: ConnectionOp)
        ensures
            final(self)@ == old(self)@.followed_by(EffectsView::connection(op@)),
    {
        self.connection_ops.push(op);
        assert(self@.log_entries =~= old(self)@.log_entries + Seq::empty());
        assert(self@.dials =~= old(self)@.dials + Seq::empty());
        assert(self@.kad_ops =~= old(self)@.kad_ops + Seq::empty());
        assert(self@.connection_ops =~= old(self)@.connection_ops + seq![op@]);
        assert(self@.state_mutations =~= old(self)@.state_mutations + Seq::empty());
        assert(self@.published =~= old(self)@.published + Seq::empty());
    }

    /// Asks for a state change.
    pub fn push_mutation(&mut self, m: StateMutation)
        ensures
            final(self)@ == old(self)@.followed_by(EffectsView::mutation(m)),
    {
        self.state_mutations.push(m);
        assert(self@.log_entries =~= old(self)@.log_entries + Seq::empty());
        assert(self@.dials =~= old(self)@.dials + Seq::empty());
        assert(self@.kad_ops =~= old(self)@.kad_ops + Seq::empty());
        assert(self@.connection_ops =~= old(self)@.connection_ops + Seq::empty());
        assert(self@.state_mutations =~= old(self)@.state_mutations + seq![m]);
        assert(self@.published =~= old(self)@.published + Seq::empty());
    }

    /// Asks for an event to be published.
    pub fn push_published(&mut self, e: NetworkEvent)
        ensures
            final(self)@ == old(self)@.followed_by(EffectsView::publish(e@)),
    {
        self.published.push(e);
        assert(self@.log_entries =~= old(self)@.log_entries + Seq::empty());
        assert(self@.dials =~= old(self)@.dials + Seq::empty());
        assert(self@.kad_ops =~= old(self)@.kad_ops + Seq::empty());
        assert(self@.connection_ops =~= old(self)@.connection_ops + Seq::empty());
        assert(self@.state_mutations =~= old(self)@.state_mutations + Seq::empty());
        assert(self@.published =~= old(self)@.published + seq![e@]);
    }
}

impl Effects {
    /// Appends all of `other` after what is already asked for.
    pub fn append_all(&mut self, other: Effects)
        ensures
            final(self)@ == old(self)@.followed_by(other@),
    {
        let Effects {
            log_entries: mut log_entries,
            dials: mut dials,
            kad_ops: mut kad_ops,
            connection_ops: mut connection_ops,
            state_mutations: mut state_mutations,
            published: mut published,
        } = other;
        let ghost o = (log_entries@, dials@, kad_ops@, connection_ops@, state_mutations@, published@);
        self.log_entries.append(&mut log_entries);
        self.dials.append(&mut dials);
        self.kad_ops.append(&mut kad_ops);
        self.connection_ops.append(&mut connection_ops);
        self.state_mutations.append(&mut state_mutations);
        self.published.append(&mut published);
        assert(self@.log_entries =~= old(self)@.log_entries + log_views(o.0));
        assert(self@.dials =~= old(self)@.dials + strings_view(o.1));
        assert(self@.kad_ops =~= old(self)@.kad_ops + o.2.map_values(|x: KadOp| x@));
        assert(self@.connection_ops =~= old(self)@.connection_ops + o.3.map_values(
            |x: ConnectionOp| x@,
        ));
        assert(self@.published =~= old(self)@.published + events_view(o.5));
    }
}

} // verus!
