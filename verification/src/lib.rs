//! Verified core of a multi-node libp2p simulator: the node-side event
//! handlers, bounded message histories, connection bookkeeping, the network
//! command routing and the terminal interface's state machines.

pub mod addr;
pub mod config;
pub mod describe;
pub mod effects;
pub mod error;
pub mod events;
pub mod graph;
pub mod stats;
pub mod handlers;
pub mod history;
pub mod info;
pub mod laws;
pub mod messages;
pub mod network;
pub mod node;
pub mod inputs;
pub mod state;
pub mod strmap;
pub mod strset;
pub mod text;
pub mod tracker;
pub mod tui;
