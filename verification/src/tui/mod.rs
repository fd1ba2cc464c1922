//! The terminal interface's state machines: components, their selections,
//! and the application's handling of keys, actions and network events.

pub mod actions;
pub mod app;
pub mod info_panels;
pub mod kv_store;
pub mod node_box;
pub mod manage_connections;
pub mod node_list;
pub mod node_log;
pub mod node_commands;
pub mod peer_set;
pub mod popup;
pub mod selection;
