//! The run state of a node.

use std::time::Instant;

use tokio_util::sync::CancellationToken;
use vstd::prelude::*;

verus! {

#[verifier::external_type_specification]
#[verifier::external_body]
pub struct ExInstant(std::time::Instant);

#[verifier::external_type_specification]
#[verifier::external_body]
pub struct ExCancellationToken(tokio_util::sync::CancellationToken);

/// Manages the state of a running node.
pub struct State {
    /// Flag for stopping the node.
    quit: bool,
    /// Node killed by network command.
    killed: bool,
    /// Whether the Kademlia bootstrap has completed.
    bootstrapped: bool,
    /// When the node started running.
    start: Instant,
    /// Token shared with the whole network, signalling shutdown.
    cancellation_token: CancellationToken,
}

/// The flags of a [`State`].
pub struct StateView {
    pub quit: bool,
    pub killed: bool,
    pub bootstrapped: bool,
    pub start: Instant,
}

impl View for State {
    type V = StateView;

    closed spec fn view(&self) -> StateView {
        StateView {
            quit: self.quit,
            killed: self.killed,
            bootstrapped: self.bootstrapped,
            start: self.start,
        }
    }
}

impl State {
    /// The shutdown token the state was made with.
    pub closed spec fn token(&self) -> CancellationToken {
        self.cancellation_token
    }

    /// A fresh state: not stopped, not killed, not bootstrapped.
    pub fn new(start: Instant, cancellation_token: CancellationToken) -> (s: Self)
        ensures
            !s@.quit,
            !s@.killed,
            !s@.bootstrapped,
            s@.start == start,
            s.token() == cancellation_token,
    {
        State { quit: false, killed: false, bootstrapped: false, start, cancellation_token }
    }

    /// When the node started running.
    pub fn start(&self) -> (t: Instant)
        ensures
            t == self@.start,
    {
        self.start
    }

    /// Asks the node to stop.
    pub fn stop(&mut self)
        ensures
            final(self)@ == (StateView { quit: true, ..old(self)@ }),
            final(self).token() == old(self).token(),
    {
        self.quit = true;
    }

    /// Marks the node as killed by a network command.
    pub fn kill(&mut self)
        ensures
            final(self)@ == (StateView { killed: true, ..old(self)@ }),
            final(self).token() == old(self).token(),
    {
        self.killed = true;
    }

    /// Marks the Kademlia bootstrap as complete.
    pub fn bootstrap(&mut self)
        ensures
            final(self)@ == (StateView { bootstrapped: true, ..old(self)@ }),
            final(self).token() == old(self).token(),
    {
        self.bootstrapped = true;
    }

    /// Whether the node was asked to stop.
    pub fn stopped(&self) -> (r: bool)
        ensures
            r == self@.quit,
    {
        self.quit
    }

    /// Whether the node was killed by a network command.
    pub fn killed(&self) -> (r: bool)
        ensures
            r == self@.killed,
    {
        self.killed
    }

    /// Whether the Kademlia bootstrap has completed.
    pub fn bootstrapped(&self) -> (r: bool)
        ensures
            r == self@.bootstrapped,
    {
        self.bootstrapped
    }

    /// The token that signals network-wide shutdown.
    pub fn cancellation_token(&self) -> (t: &CancellationToken)
        ensures
            *t == self.token(),
    {
        &self.cancellation_token
    }
}

} // verus!
