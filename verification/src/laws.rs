//! Properties that span several operations of the library.

use vstd::prelude::*;

use crate::graph::{graph_link, graph_unlink};
use crate::effects::{ConnectionOpView, KadOpView};
use crate::events::NetworkEventView;
use crate::handlers::{agent_text, event_effects, KadQueries};
use crate::history::{Elapsed, PeerIdentityView};
use crate::info::IdentifyInfoView;
use crate::inputs::{EndpointView, IdentifyInputView, SwarmInputView};
use crate::messages::{NetworkCommandView, NodeResponseView};
use crate::network::{translate_spec, TranslateView};
use crate::node::connection_steps;
use crate::tui::app::command_for;
use crate::history::{bounded_push, KadMode};
use crate::info::KademliaInfoView;
use crate::node::kad_info_after;
use crate::tui::actions::{ActionView, Key};
use crate::tui::app::{focus_after_action, focus_after_key, list_graph_focus, swap_removed, Focus};
use crate::tui::kv_store::{fields_in_range, kv_after_key, FieldView, KvFocus, KvStoreView};
use crate::tui::manage_connections::Focus as ListFocus;
use crate::tui::node_box::{box_after_action, has_link, without_pair, without_peer, NodeBoxView};
use crate::tui::node_commands::{commands_emits, MenuView};
use crate::tui::node_list::Lists;

verus! {

/// A log bounded by `cap` stays within `cap` when an entry is added; the new
/// entry comes last and the entries kept before it are the most recent ones
/// of the old log, in their order.
pub proof fn law_bounded_log_keeps_recent<T>(s: Seq<T>, x: T, cap: nat)
    requires
        cap > 0,
        s.len() <= cap,
    ensures
        bounded_push(s, x, cap).len() <= cap,
        bounded_push(s, x, cap).last() == x,
        bounded_push(s, x, cap).drop_last() == s.subrange(
            s.len() - (bounded_push(s, x, cap).len() - 1),
            s.len() as int,
        ),
{
    let r = bounded_push(s, x, cap);
    if s.len() >= cap && s.len() > 0 {
        assert(r.drop_last() =~= s.subrange(1, s.len() as int));
    } else {
        assert(r.drop_last() =~= s.subrange(0, s.len() as int));
    }
}

/// Tab twice gives the focus back to where it was; while the popup is open
/// Tab leaves the focus on it.
pub proof fn law_tab_twice_restores_focus(f: Focus)
    ensures
        focus_after_key(focus_after_key(f, Key::Tab), Key::Tab) == f,
        f == Focus::PopUp ==> focus_after_key(f, Key::Tab) == Focus::PopUp,
        f != Focus::PopUp ==> focus_after_key(f, Key::Tab) != f,
{
}

/// Esc in the command menu closes the popup, and closing the popup gives the
/// focus back to the node list and the graph, wherever it was.
pub proof fn law_esc_closes_popup(menu: MenuView, f: Focus, list_focus: bool)
    ensures
        commands_emits(menu, Key::Esc) == seq![ActionView::ClosePopup],
        focus_after_action(f, ActionView::ClosePopup) == Focus::NodeList,
        list_graph_focus(list_focus, ActionView::ClosePopup),
{
}

/// In the record popup, typing a character and erasing it with Backspace
/// gives back the popup as it was.
pub proof fn law_type_then_erase(s: KvStoreView, c: char)
    requires
        s.node is Some,
        fields_in_range(s),
    ensures
        kv_after_key(kv_after_key(s, Key::Char(c)), Key::Backspace) == s,
{
    let typed = kv_after_key(s, Key::Char(c));
    match s.focus {
        KvFocus::Key => {
            assert(typed.key.text.remove(s.key.col as int) =~= s.key.text);
        },
        KvFocus::Value => {
            assert(typed.value.text.remove(s.value.col as int) =~= s.value.text);
        },
    }
}

/// In a text field, erasing with Backspace the character just typed gives
/// back the field as it was.
pub proof fn law_delete_undoes_insert(f: FieldView, c: char)
    requires
        f.in_range(),
    ensures
        f.after_insert(c).after_delete() == f,
        f.after_insert(c).in_range(),
{
    assert(f.after_insert(c).text.remove(f.col as int) =~= f.text);
}

/// Switching field, list or focus twice comes back to the start.
pub proof fn law_toggles_are_involutions(k: KvFocus, m: ListFocus, l: Lists)
    ensures
        k.toggle_spec().toggle_spec() == k,
        k.toggle_spec() != k,
        m.toggle_spec().toggle_spec() == m,
        m.toggle_spec() != m,
        l.other().other() == l,
        l.other() != l,
{
}

/// After two peers connect and then disconnect, both are recorded and
/// neither is among the other's neighbours.
pub proof fn law_connect_then_disconnect(m: Map<Seq<char>, Set<Seq<char>>>, a: Seq<char>, b: Seq<char>)
    ensures
        ({
            let connected = graph_link(graph_link(m, a, b), b, a);
            let apart = graph_unlink(graph_unlink(connected, a, b), b, a);
            &&& connected.contains_key(a) && connected[a].contains(b)
            &&& connected.contains_key(b) && connected[b].contains(a)
            &&& apart.contains_key(a) && !apart[a].contains(b)
            &&& apart.contains_key(b) && !apart[b].contains(a)
        }),
{
}

proof fn lemma_without_pair_absent(s: Seq<(Seq<char>, Seq<char>, bool)>, a: Seq<char>, b: Seq<char>, c: Seq<char>, d: Seq<char>)
    requires
        !has_link(s, c, d) || (c == a && d == b),
    ensures
        !has_link(without_pair(s, a, b), c, d),
    decreases s.len(),
{
    if s.len() > 0 {
        let r = without_pair(s.drop_last(), a, b);
        assert(!has_link(s.drop_last(), c, d) || (c == a && d == b)) by {
            if has_link(s.drop_last(), c, d) {
                let i = choose|i: int| 0 <= i < s.drop_last().len() && s.drop_last()[i].0 == c && s.drop_last()[i].1 == d;
                assert(s[i] == s.drop_last()[i]);
            }
        }
        lemma_without_pair_absent(s.drop_last(), a, b, c, d);
        if !(s.last().0 == a && s.last().1 == b) {
            let t = r.push(s.last());
            if has_link(t, c, d) {
                let i = choose|i: int| 0 <= i < t.len() && t[i].0 == c && t[i].1 == d;
                if i < r.len() {
                    assert(t[i] == r[i]);
                } else {
                    assert(s[s.len() - 1] == s.last());
                }
            }
        }
    }
}

/// Disconnecting two peers leaves no line between them in the graph, in
/// either direction.
pub proof fn law_disconnect_drops_lines(v: NodeBoxView, a: Seq<char>, b: Seq<char>, active: Seq<Seq<char>>)
    ensures
        ({
            let links = box_after_action(v, ActionView::DisconnectFrom { peer_one: a, peer_two: b }, active).links;
            !has_link(links, a, b) && !has_link(links, b, a)
        }),
{
    let once = without_pair(v.links, a, b);
    lemma_without_pair_absent(v.links, a, b, a, b);
    lemma_without_pair_absent(once, b, a, a, b);
    lemma_without_pair_absent(once, b, a, b, a);
}

/// The running nodes stay distinct: a node that starts running is listed
/// once and a node that stops is no longer listed.
pub proof fn law_active_nodes_distinct(before: Seq<Seq<char>>, after: Seq<Seq<char>>, p: Seq<char>)
    requires
        before.no_duplicates(),
    ensures
        ({
            let ran = if before.contains(p) { before } else { before.push(p) };
            ran.no_duplicates() && ran.contains(p)
        }),
        swap_removed(before, after, p) ==> after.no_duplicates() && !after.contains(p),
{
    let ran = if before.contains(p) { before } else { before.push(p) };
    if !before.contains(p) {
        assert(ran.no_duplicates()) by {
            assert forall|i: int, j: int| 0 <= i < j < ran.len() implies ran[i] != ran[j] by {
                if j == before.len() {
                    assert(before.contains(before[i]));
                }
            }
        }
        assert(ran[before.len() as int] == p);
    }
    if swap_removed(before, after, p) {
        if before.contains(p) {
            let i = choose|i: int|
                0 <= i < before.len() && before[i] == p && after == before.update(i, before.last()).drop_last();
            let n = before.len() - 1;
            assert forall|a: int, b: int| 0 <= a < b < after.len() implies after[a] != after[b] by {
                let a2 = if a == i { n } else { a };
                let b2 = if b == i { n } else { b };
                assert(after[a] == before[a2]);
                assert(after[b] == before[b2]);
            }
            if after.contains(p) {
                let k = choose|k: int| 0 <= k < after.len() && after[k] == p;
                let k2 = if k == i { n } else { k };
                assert(after[k] == before[k2]);
            }
        }
    }
}

/// Applying Kademlia operations in order, the last mode set wins: when
/// `ops[i]` sets mode `m` and no later operation sets a mode, the node ends
/// in mode `m`.
pub proof fn law_last_mode_wins(info: KademliaInfoView, ops: Seq<KadOpView>, i: int, m: KadMode)
    requires
        0 <= i < ops.len(),
        ops[i] == KadOpView::SetMode(m),
        forall|j: int| i < j < ops.len() ==> !(#[trigger] ops[j] is SetMode),
    ensures
        kad_info_after(info, ops).mode == m,
    decreases ops.len(),
{
    if i < ops.len() - 1 {
        assert(!(ops[ops.len() - 1] is SetMode));
        law_last_mode_wins(info, ops.drop_last(), i, m);
    }
}

/// Applying Kademlia operations in order, the last bootstrap flag set wins.
pub proof fn law_last_bootstrap_flag_wins(info: KademliaInfoView, ops: Seq<KadOpView>, i: int, b: bool)
    requires
        0 <= i < ops.len(),
        ops[i] == KadOpView::SetBootstrapped(b),
        forall|j: int| i < j < ops.len() ==> !(#[trigger] ops[j] is SetBootstrapped),
    ensures
        kad_info_after(info, ops).bootstrapped == b,
    decreases ops.len(),
{
    if i < ops.len() - 1 {
        assert(!(ops[ops.len() - 1] is SetBootstrapped));
        law_last_bootstrap_flag_wins(info, ops.drop_last(), i, b);
    }
}

/// Operations that need the swarm leave the node's Kademlia information as
/// it was.
pub proof fn law_swarm_ops_keep_kad_info(info: KademliaInfoView, ops: Seq<KadOpView>)
    requires
        forall|j: int| 0 <= j < ops.len() ==> !(#[trigger] ops[j] is SetMode) && !(ops[j] is SetBootstrapped),
    ensures
        kad_info_after(info, ops) == info,
    decreases ops.len(),
{
    if ops.len() > 0 {
        law_swarm_ops_keep_kad_info(info, ops.drop_last());
        assert(ops.last() == ops[ops.len() - 1]);
    }
}

/// The action queue is first in, first out: after `a` is queued, the next
/// action taken is the oldest one waiting, and `a` waits behind the rest.
pub proof fn law_queue_fifo(q: Seq<ActionView>, a: ActionView)
    ensures
        q.push(a)[0] == if q.len() == 0 { a } else { q[0] },
        q.push(a).drop_first() == if q.len() == 0 { Seq::<ActionView>::empty() } else { q.drop_first().push(a) },
{
    if q.len() == 0 {
        assert(q.push(a).drop_first() =~= Seq::<ActionView>::empty());
    } else {
        assert(q.push(a).drop_first() =~= q.drop_first().push(a));
    }
}


/// When a peer identifies itself, the node dials it only if it runs the
/// simulation's agent, announces an address, and is not already connected:
/// a connected peer is never dialed again, and a new peer of the simulation
/// is dialed at the first address it announces.
pub proof fn law_identified_peer_dialed_once(
    peer_id: Seq<char>,
    info: PeerIdentityView,
    self_peer: Seq<char>,
    bind: Option<(u8, u8, u8, u8)>,
    bootstrapped: bool,
    q: KadQueries,
    connected: Set<Seq<char>>,
    at: Elapsed,
)
    ensures
        ({
            let fx = event_effects(
                SwarmInputView::Identify(IdentifyInputView::Received { peer_id, info }),
                self_peer,
                bind,
                bootstrapped,
                q,
                connected,
                at,
            );
            &&& connected.contains(peer_id) ==> fx.dials.len() == 0
            &&& info.agent_version != agent_text() ==> fx.dials.len() == 0
            &&& !connected.contains(peer_id) && info.agent_version == agent_text() && info.listen_addrs.len() > 0
                ==> fx.dials == seq![info.listen_addrs[0]]
            &&& fx.kad_ops.len() == 0 && fx.connection_ops.len() == 0 && fx.published.len() == 0
        }),
{
}

/// A reply of the kind a request asked for is published with its content
/// unchanged; a reply of another kind publishes nothing.
pub proof fn law_replies_published_as_asked(
    records: Seq<(Seq<char>, Seq<char>)>,
    identify: IdentifyInfoView,
    kad: crate::info::KademliaInfoView,
    peer_one: Seq<char>,
    peer: Seq<char>,
    r: NodeResponseView,
)
    ensures
        translate_spec(TranslateView::RecordsList, NodeResponseView::RecordsList { records })
            == Some(NetworkEventView::RecordsList { records }),
        translate_spec(TranslateView::IdentifyInfo, NodeResponseView::IdentifyInfo { info: identify })
            == Some(NetworkEventView::IdentifyInfo { info: identify }),
        translate_spec(TranslateView::KademliaInfo, NodeResponseView::KademliaInfo { info: kad })
            == Some(NetworkEventView::KademliaInfo { info: kad }),
        translate_spec(TranslateView::Disconnected { peer_one }, NodeResponseView::Disconnected { peer })
            == Some(NetworkEventView::NodesDisconnected { peer_one, peer_two: peer }),
        !(r is RecordsList) ==> translate_spec(TranslateView::RecordsList, r) is None,
        !(r is IdentifyInfo) ==> translate_spec(TranslateView::IdentifyInfo, r) is None,
        !(r is KademliaInfo) ==> translate_spec(TranslateView::KademliaInfo, r) is None,
        !(r is Disconnected) ==> translate_spec(TranslateView::Disconnected { peer_one }, r) is None,
        translate_spec(TranslateView::Nothing, r) is None,
{
}

/// The peer a connection change names.
pub open spec fn connection_op_peer(op: ConnectionOpView) -> Seq<char> {
    match op {
        ConnectionOpView::AddActive { peer } => peer,
        ConnectionOpView::RemoveActive { peer } => peer,
    }
}

/// Connection changes that never name peer `p` leave it as it was.
pub proof fn law_unnamed_peer_keeps_connection(s: Set<Seq<char>>, ops: Seq<ConnectionOpView>, p: Seq<char>)
    requires
        forall|j: int| 0 <= j < ops.len() ==> connection_op_peer(#[trigger] ops[j]) != p,
    ensures
        connection_steps(s, ops).contains(p) == s.contains(p),
    decreases ops.len(),
{
    if ops.len() > 0 {
        let init = ops.drop_last();
        assert(connection_op_peer(ops[ops.len() - 1]) != p);
        assert forall|j: int| 0 <= j < init.len() implies connection_op_peer(#[trigger] init[j]) != p by {
            assert(init[j] == ops[j]);
        }
        law_unnamed_peer_keeps_connection(s, init, p);
    }
}

/// Applying connection changes in order, the last change naming a peer
/// decides whether it is connected: connected after `AddActive`, not
/// connected after `RemoveActive`.
pub proof fn law_last_connection_change_wins(s: Set<Seq<char>>, ops: Seq<ConnectionOpView>, p: Seq<char>, i: int)
    requires
        0 <= i < ops.len(),
        connection_op_peer(ops[i]) == p,
        forall|j: int| i < j < ops.len() ==> connection_op_peer(#[trigger] ops[j]) != p,
    ensures
        connection_steps(s, ops).contains(p) == (ops[i] is AddActive),
    decreases ops.len(),
{
    let init = ops.drop_last();
    if i < ops.len() - 1 {
        assert(connection_op_peer(ops[ops.len() - 1]) != p);
        assert(init[i] == ops[i]);
        assert forall|j: int| i < j < init.len() implies connection_op_peer(#[trigger] init[j]) != p by {
            assert(init[j] == ops[j]);
        }
        law_last_connection_change_wins(s, init, p, i);
    } else {
        assert(ops.last() == ops[i]);
    }
}

/// After a node is removed from the graph, no line has it at either end,
/// and every line between other nodes is kept.
pub proof fn law_removed_node_loses_its_lines(v: NodeBoxView, p: Seq<char>, active: Seq<Seq<char>>)
    ensures
        ({
            let after = box_after_action(v, ActionView::RemoveNode { peer_id: p }, active).links;
            &&& forall|i: int| 0 <= i < after.len() ==> (#[trigger] after[i]).0 != p && after[i].1 != p
            &&& forall|i: int| 0 <= i < v.links.len() && (#[trigger] v.links[i]).0 != p && v.links[i].1 != p
                ==> after.contains(v.links[i])
            &&& forall|i: int| 0 <= i < after.len() ==> v.links.contains(#[trigger] after[i])
            &&& !box_after_action(v, ActionView::RemoveNode { peer_id: p }, active).shaped.contains(p)
        }),
{
    lemma_without_peer(v.links, p);
}

proof fn lemma_without_peer(s: Seq<(Seq<char>, Seq<char>, bool)>, p: Seq<char>)
    ensures
        forall|i: int|
            0 <= i < without_peer(s, p).len() ==> (#[trigger] without_peer(
                s,
                p,
            )[i]).0 != p && without_peer(s, p)[i].1 != p && s.contains(
                without_peer(s, p)[i],
            ),
        forall|i: int|
            0 <= i < s.len() && (#[trigger] s[i]).0 != p && s[i].1 != p ==> without_peer(
                s,
                p,
            ).contains(s[i]),
    decreases s.len(),
{
    if s.len() > 0 {
        let init = s.drop_last();
        lemma_without_peer(init, p);
        let r = without_peer(init, p);
        let w = without_peer(s, p);
        assert forall|i: int| 0 <= i < w.len() implies (#[trigger] w[i]).0 != p && w[i].1 != p && s.contains(w[i]) by {
            if i < r.len() {
                assert(w[i] == r[i]);
                let k = choose|k: int| 0 <= k < init.len() && init[k] == r[i];
                assert(s[k] == init[k]);
            } else {
                assert(w[i] == s.last());
                assert(s[s.len() - 1] == s.last());
            }
        }
        assert forall|i: int| 0 <= i < s.len() && (#[trigger] s[i]).0 != p && s[i].1 != p implies w.contains(s[i]) by {
            if i < init.len() {
                assert(init[i] == s[i]);
                let k = choose|k: int| 0 <= k < r.len() && r[k] == init[i];
                assert(w[k] == r[k]);
            } else {
                assert(s[i] == s.last());
                assert(w[w.len() - 1] == s.last());
            }
        }
    }
}

/// Each action that asks the node network for something asks it of the
/// peers the action names, carrying the action's data in place: a record's
/// key stays its key and its value its value; two peers keep their order.
pub proof fn law_action_commands_carry_their_data(a: ActionView)
    ensures
        a matches ActionView::PutRecord { peer_id, key, value }
            ==> command_for(a) == Some(NetworkCommandView::PutRecord { peer_id, key, value }),
        a matches ActionView::ConnectTo { peer_one, peer_two }
            ==> command_for(a) == Some(NetworkCommandView::Connect { peer_one, peer_two }),
        a matches ActionView::DisconnectFrom { peer_one, peer_two }
            ==> command_for(a) == Some(NetworkCommandView::Disconnect { peer_one, peer_two }),
        a matches ActionView::AddExternalNode { peer_id, address }
            ==> command_for(a) == Some(NetworkCommandView::AddExternal { peer_id, address }),
        a matches ActionView::DisplayIdentifyInfo { peer_id }
            ==> command_for(a) == Some(NetworkCommandView::GetIdentifyInfo { peer_id }),
        a matches ActionView::DisplayKademliaInfo { peer_id }
            ==> command_for(a) == Some(NetworkCommandView::GetKademliaInfo { peer_id }),
        a matches ActionView::DisplayRecordsList { peer_id }
            ==> command_for(a) == Some(NetworkCommandView::RecordsList { peer_id }),
        a matches ActionView::StopNode { peer_id } ==> command_for(a) == Some(NetworkCommandView::Stop { peer_id }),
        a matches ActionView::StartNode { kad_mode } ==> command_for(a) == Some(NetworkCommandView::Start { kad_mode }),
{
}

/// A connection that opens makes its peer an active connection, announces
/// the two peers connected and adds the peer to the routing table; the
/// last connection to a peer closing removes it, and the closing is
/// announced either way.
pub proof fn law_connection_events_track_peers(
    peer_id: Seq<char>,
    endpoint: EndpointView,
    num_established: u32,
    self_peer: Seq<char>,
    bind: Option<(u8, u8, u8, u8)>,
    bootstrapped: bool,
    q: KadQueries,
    connected: Set<Seq<char>>,
    at: Elapsed,
)
    ensures
        ({
            let opened = event_effects(
                SwarmInputView::ConnectionEstablished { peer_id, endpoint },
                self_peer,
                bind,
                bootstrapped,
                q,
                connected,
                at,
            );
            &&& opened.connection_ops == seq![ConnectionOpView::AddActive { peer: peer_id }]
            &&& opened.published == seq![NetworkEventView::NodesConnected { peer_one: peer_id, peer_two: self_peer }]
            &&& opened.kad_ops.len() > 0 && opened.kad_ops[0] is AddAddress
            &&& opened.kad_ops[0]->AddAddress_peer == peer_id
            &&& opened.kad_ops.contains(KadOpView::Bootstrap) == !bootstrapped
            &&& opened.dials.len() == 0
        }),
        ({
            let closed = event_effects(
                SwarmInputView::ConnectionClosed { peer_id, endpoint, num_established },
                self_peer,
                bind,
                bootstrapped,
                q,
                connected,
                at,
            );
            &&& closed.connection_ops == if num_established == 0 {
                seq![ConnectionOpView::RemoveActive { peer: peer_id }]
            } else {
                Seq::<ConnectionOpView>::empty()
            }
            &&& closed.published == seq![
                NetworkEventView::NodesDisconnected { peer_one: peer_id, peer_two: self_peer },
            ]
            &&& closed.dials.len() == 0 && closed.kad_ops.len() == 0
        }),
{
    let opened = event_effects(
        SwarmInputView::ConnectionEstablished { peer_id, endpoint },
        self_peer,
        bind,
        bootstrapped,
        q,
        connected,
        at,
    );
    if bootstrapped {
        assert(opened.kad_ops.len() == 1);
        assert(!opened.kad_ops.contains(KadOpView::Bootstrap)) by {
            if opened.kad_ops.contains(KadOpView::Bootstrap) {
                let k = choose|k: int| 0 <= k < opened.kad_ops.len() && opened.kad_ops[k] == KadOpView::Bootstrap;
                assert(k == 0);
            }
        }
    } else {
        assert(opened.kad_ops[1] == KadOpView::Bootstrap);
    }
}

}
