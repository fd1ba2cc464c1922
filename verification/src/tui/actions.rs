//! Actions the interface performs, and the queue they wait in.

use std::collections::VecDeque;

use vstd::prelude::*;

use crate::history::KadMode;

verus! {

/// A key the interface reacts to.
#[derive(Clone, Copy, Debug, PartialEq, Eq, Structural)]
pub enum Key {
    Up,
    Down,
    Left,
    Right,
    Enter,
    Esc,
    Tab,
    Backspace,
    Char(char),
    Other,
}

/// What the popup displays.
#[derive(Clone, Copy, Debug, PartialEq, Eq, Structural)]
pub enum PopUpContent {
    NodeCommands,
    ManageConnections,
    NodeInfo,
    IdentifyInfo,
    KademliaInfo,
    KvStore,
}

/// An action to perform, as the result of user input or of a network event.
#[derive(Clone, Debug)]
pub enum Action {
    /// Quit the application.
    Quit,
    /// Start a new node in the given Kademlia mode.
    StartNode { kad_mode: KadMode },
    /// Add a newly started node to the interface.
    AddNode { peer_id: String, mode: KadMode },
    /// Add an external node to the interface.
    AddExternalNode { peer_id: String, address: String },
    /// Two nodes got connected.
    UpdateConnections { peer_one: String, peer_two: String },
    /// Stop a node.
    StopNode { peer_id: String },
    /// Remove a stopped node from the interface.
    RemoveNode { peer_id: String },
    /// Display the logs of a node.
    DisplayLogs { peer_id: String },
    /// Display the node info popup.
    DisplayInfo { peer_id: String },
    /// Display the identify info popup.
    DisplayIdentifyInfo { peer_id: String },
    /// Display the Kademlia info popup.
    DisplayKademliaInfo { peer_id: String },
    /// Connect `peer_one` to `peer_two`, `peer_one` dialing.
    ConnectTo { peer_one: String, peer_two: String },
    /// Disconnect `peer_one` from `peer_two`.
    DisconnectFrom { peer_one: String, peer_two: String },
    /// Display the manage-connections popup.
    DisplayManageConnections { peer_id: String },
    /// Display the key/value store popup.
    DisplayKvStore { peer_id: String },
    /// Display the locally stored records.
    DisplayRecordsList { peer_id: String },
    /// Put a record on a node.
    PutRecord { peer_id: String, key: String, value: String },
    /// Display the popup with the given content for a node.
    Popup { content: PopUpContent, peer_id: String },
    /// Close the popup.
    ClosePopup,
}

/// Abstract form of [`Action`].
pub enum ActionView {
    Quit,
    StartNode { kad_mode: KadMode },
    AddNode { peer_id: Seq<char>, mode: KadMode },
    AddExternalNode { peer_id: Seq<char>, address: Seq<char> },
    UpdateConnections { peer_one: Seq<char>, peer_two: Seq<char> },
    StopNode { peer_id: Seq<char> },
    RemoveNode { peer_id: Seq<char> },
    DisplayLogs { peer_id: Seq<char> },
    DisplayInfo { peer_id: Seq<char> },
    DisplayIdentifyInfo { peer_id: Seq<char> },
    DisplayKademliaInfo { peer_id: Seq<char> },
    ConnectTo { peer_one: Seq<char>, peer_two: Seq<char> },
    DisconnectFrom { peer_one: Seq<char>, peer_two: Seq<char> },
    DisplayManageConnections { peer_id: Seq<char> },
    DisplayKvStore { peer_id: Seq<char> },
    DisplayRecordsList { peer_id: Seq<char> },
    PutRecord { peer_id: Seq<char>, key: Seq<char>, value: Seq<char> },
    Popup { content: PopUpContent, peer_id: Seq<char> },
    ClosePopup,
}

impl View for Action {
    type V = ActionView;

    open spec fn view(&self) -> ActionView {
        match self {
            Action::Quit => ActionView::Quit,
            Action::StartNode { kad_mode } => ActionView::StartNode { kad_mode: *kad_mode },
            Action::AddNode { peer_id, mode } => ActionView::AddNode { peer_id: peer_id@, mode: *mode },
            Action::AddExternalNode { peer_id, address } =>
                ActionView::AddExternalNode { peer_id: peer_id@, address: address@ },
            Action::UpdateConnections { peer_one, peer_two } =>
                ActionView::UpdateConnections { peer_one: peer_one@, peer_two: peer_two@ },
            Action::StopNode { peer_id } => ActionView::StopNode { peer_id: peer_id@ },
            Action::RemoveNode { peer_id } => ActionView::RemoveNode { peer_id: peer_id@ },
            Action::DisplayLogs { peer_id } => ActionView::DisplayLogs { peer_id: peer_id@ },
            Action::DisplayInfo { peer_id } => ActionView::DisplayInfo { peer_id: peer_id@ },
            Action::DisplayIdentifyInfo { peer_id } => ActionView::DisplayIdentifyInfo { peer_id: peer_id@ },
            Action::DisplayKademliaInfo { peer_id } => ActionView::DisplayKademliaInfo { peer_id: peer_id@ },
            Action::ConnectTo { peer_one, peer_two } =>
                ActionView::ConnectTo { peer_one: peer_one@, peer_two: peer_two@ },
            Action::DisconnectFrom { peer_one, peer_two } =>
                ActionView::DisconnectFrom { peer_one: peer_one@, peer_two: peer_two@ },
            Action::DisplayManageConnections { peer_id } =>
                ActionView::DisplayManageConnections { peer_id: peer_id@ },
            Action::DisplayKvStore { peer_id } => ActionView::DisplayKvStore { peer_id: peer_id@ },
            Action::DisplayRecordsList { peer_id } => ActionView::DisplayRecordsList { peer_id: peer_id@ },
            Action::PutRecord { peer_id, key, value } =>
                ActionView::PutRecord { peer_id: peer_id@, key: key@, value: value@ },
            Action::Popup { content, peer_id } => ActionView::Popup { content: *content, peer_id: peer_id@ },
            Action::ClosePopup => ActionView::ClosePopup,
        }
    }
}

/// First-in first-out queue of pending actions.
#[derive(Debug)]
pub struct ActionQueue {
    queue: VecDeque<Action>,
}

/// The views of a list of actions.
pub open spec fn actions_view(s: Seq<Action>) -> Seq<ActionView> {
    s.map_values(|a: Action| a@)
}

impl View for ActionQueue {
    type V = Seq<ActionView>;

    closed spec fn view(&self) -> Seq<ActionView> {
        actions_view(self.queue@)
    }
}

impl ActionQueue {
    /// An empty queue.
    pub fn new() -> (q: Self)
        ensures
            q@ == Seq::<ActionView>::empty(),
    {
        let q = ActionQueue { queue: VecDeque::new() };
        assert(q@ =~= Seq::<ActionView>::empty());
        q
    }

    /// Adds an action at the back.
    pub fn push(&mut self, action: Action)
        ensures
            final(self)@ == old(self)@.push(action@),
    {
        self.queue.push_back(action);
        assert(self@ =~= old(self)@.push(action@));
    }

    /// Takes the action at the front, if any.
    pub fn next(&mut self) -> (a: Option<Action>)
        ensures
            match a {
                Some(x) => old(self)@.len() > 0 && x@ == old(self)@[0] && final(self)@ == old(self)@.drop_first(),
                None => old(self)@.len() == 0 && final(self)@ == old(self)@,
            },
    {
        let a = self.queue.pop_front();
        proof {
            if a is Some {
                assert(self@ =~= old(self)@.drop_first());
            }
        }
        a
    }

    /// Number of pending actions.
    pub fn len(&self) -> (n: usize)
        ensures
            n == self@.len(),
    {
        self.queue.len()
    }
}

} // verus!
