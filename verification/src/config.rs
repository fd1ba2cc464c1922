//! Checks on how the simulation is asked to run, and the listen address a
//! new node is given.

use vstd::prelude::*;

use crate::error::{AppError, AppErrorView, NodeError, NodeErrorView};
use crate::network::TransportMode;
use crate::text::{decimal, push_decimal, string_from_chars};

verus! {

/// The most nodes the simulation runs at once.
pub const MAX_NODES: u8 = 10;

/// The transport named on the command line: `memory` or `tcp`; anything else
/// falls back to memory.
pub open spec fn transport_named(arg: Seq<char>) -> TransportMode {
    if arg == "tcp"@ {
        TransportMode::Tcp
    } else {
        TransportMode::Memory
    }
}

/// The transport named on the command line.
pub fn transport_from_arg(arg: &String) -> (t: TransportMode)
    ensures
        t == transport_named(arg@),
{
    let tcp = String::from_str("tcp");
    if *arg == tcp {
        TransportMode::Tcp
    } else {
        TransportMode::Memory
    }
}

/// Checks the command-line choices: TCP needs a bind address, and at most
/// [`MAX_NODES`] nodes may be started.
pub fn check_run_args(
    starting_nodes: u8,
    mode: TransportMode,
    bind_address: Option<(u8, u8, u8, u8)>,
) -> (r: Result<(), AppError>)
    ensures
        match r {
            Ok(()) => !(bind_address is None && mode == TransportMode::Tcp) && starting_nodes <= MAX_NODES,
            Err(e) => if bind_address is None && mode == TransportMode::Tcp {
                e@ == AppErrorView::NoBindAddress
            } else {
                starting_nodes > MAX_NODES && e@ == (AppErrorView::MaxNodes { max: MAX_NODES })
            },
        },
{
    if bind_address.is_none() && mode == TransportMode::Tcp {
        return Err(AppError::NoBindAddress);
    }
    if starting_nodes > MAX_NODES {
        return Err(AppError::MaxNodes { max: MAX_NODES });
    }
    Ok(())
}

/// The message of a simulation whose node counts do not fit.
pub open spec fn node_counts_text(starting: u8, max: u8) -> Seq<char> {
    "starting nodes "@ + decimal(starting as nat) + " > than max nodes "@ + decimal(max as nat)
}

/// A simulation may not start with more nodes than its maximum.
pub fn check_node_counts(starting_nodes: u8, max_nodes: u8) -> (r: Result<(), AppError>)
    ensures
        match r {
            Ok(()) => starting_nodes <= max_nodes,
            Err(e) => starting_nodes > max_nodes
                && e@ == AppErrorView::BuildError(node_counts_text(starting_nodes, max_nodes)),
        },
{
    if starting_nodes > max_nodes {
        let mut v: Vec<char> = Vec::new();
        let mut s = String::from_str("starting nodes ");
        push_decimal(&mut v, starting_nodes as u64);
        let a = string_from_chars(&v);
        s.append(a.as_str());
        s.append(" > than max nodes ");
        let mut w: Vec<char> = Vec::new();
        push_decimal(&mut w, max_nodes as u64);
        let b = string_from_chars(&w);
        s.append(b.as_str());
        return Err(AppError::BuildError(s));
    }
    Ok(())
}

/// The textual form of a TCP listen address on the given IPv4 address, with
/// a port chosen by the system.
pub open spec fn tcp_listen_text(a: (u8, u8, u8, u8)) -> Seq<char> {
    "/ip4/"@ + decimal(a.0 as nat) + "."@ + decimal(a.1 as nat) + "."@ + decimal(a.2 as nat) + "."@
        + decimal(a.3 as nat) + "/tcp/0"@
}

/// The textual form of an in-memory listen address.
pub open spec fn memory_listen_text(port: u64) -> Seq<char> {
    "/memory/"@ + decimal(port as nat)
}

/// The address a new node listens on: an in-memory address on the given
/// random port, or port 0 of the bind address in TCP mode, which requires one.
pub fn listen_address_for(
    transport: TransportMode,
    bind_address: Option<(u8, u8, u8, u8)>,
    random_port: u64,
) -> (r: Result<String, NodeError>)
    ensures
        match r {
            Ok(a) => match transport {
                TransportMode::Memory => a@ == memory_listen_text(random_port),
                TransportMode::Tcp => bind_address is Some && a@ == tcp_listen_text(bind_address->0),
            },
            Err(e) => transport == TransportMode::Tcp && bind_address is None
                && e@ == NodeErrorView::Config("bind address required for tcp mode"@),
        },
{
    match transport {
        TransportMode::Memory => {
            let mut v: Vec<char> = Vec::new();
            push_decimal(&mut v, random_port);
            let n = string_from_chars(&v);
            let mut s = String::from_str("/memory/");
            s.append(n.as_str());
            Ok(s)
        },
        TransportMode::Tcp => {
            match bind_address {
                None => Err(NodeError::Config(String::from_str("bind address required for tcp mode"))),
                Some(a) => {
                    let mut v: Vec<char> = Vec::new();
                    push_decimal(&mut v, a.0 as u64);
                    v.push('.');
                    push_decimal(&mut v, a.1 as u64);
                    v.push('.');
                    push_decimal(&mut v, a.2 as u64);
                    v.push('.');
                    push_decimal(&mut v, a.3 as u64);
                    let ip = string_from_chars(&v);
                    let mut s = String::from_str("/ip4/");
                    s.append(ip.as_str());
                    s.append("/tcp/0");
                    proof {
                        reveal_strlit(".");
                        assert(ip@ == decimal(a.0 as nat) + "."@ + decimal(a.1 as nat) + "."@
                            + decimal(a.2 as nat) + "."@ + decimal(a.3 as nat));
                    }
                    Ok(s)
                },
            }
        },
    }
}

/// A random port for an in-memory listen address, by `rand::random`.
#[verifier::external_body]
fn random_port() -> (port: u64) {
    rand::random::<u64>()
}

/// The address a new node listens on, with a random in-memory port.
pub fn fresh_listen_address(transport: TransportMode, bind_address: Option<(u8, u8, u8, u8)>) -> (r: Result<
    String,
    NodeError,
>)
    ensures
        match r {
            Ok(a) => match transport {
                TransportMode::Memory => exists|port: u64| a@ == memory_listen_text(port),
                TransportMode::Tcp => bind_address is Some && a@ == tcp_listen_text(bind_address->0),
            },
            Err(e) => transport == TransportMode::Tcp && bind_address is None
                && e@ == NodeErrorView::Config("bind address required for tcp mode"@),
        },
{
    let port = random_port();
    listen_address_for(transport, bind_address, port)
}

} // verus!
