//! Application and node errors, with the messages they are shown with.

use vstd::prelude::*;

use crate::text::{decimal, decimal_string};

verus! {

/// Top-level application error. Errors that wrap a lower-level cause hold
/// that cause's message.
#[derive(Clone, Debug)]
pub enum AppError {
    NoBindAddress,
    BuildError(String),
    AllNodesExited,
    MaxNodes { max: u8 },
    TracingInit(String),
    TuiInit(String),
    TerminalDraw(String),
    OtherTUI(String),
}

/// Abstract form of [`AppError`].
pub enum AppErrorView {
    NoBindAddress,
    BuildError(Seq<char>),
    AllNodesExited,
    MaxNodes { max: u8 },
    TracingInit(Seq<char>),
    TuiInit(Seq<char>),
    TerminalDraw(Seq<char>),
    OtherTUI(Seq<char>),
}

impl View for AppError {
    type V = AppErrorView;

    open spec fn view(&self) -> AppErrorView {
        match self {
            AppError::NoBindAddress => AppErrorView::NoBindAddress,
            AppError::BuildError(m) => AppErrorView::BuildError(m@),
            AppError::AllNodesExited => AppErrorView::AllNodesExited,
            AppError::MaxNodes { max } => AppErrorView::MaxNodes { max: *max },
            AppError::TracingInit(m) => AppErrorView::TracingInit(m@),
            AppError::TuiInit(m) => AppErrorView::TuiInit(m@),
            AppError::TerminalDraw(m) => AppErrorView::TerminalDraw(m@),
            AppError::OtherTUI(m) => AppErrorView::OtherTUI(m@),
        }
    }
}

/// The message an application error is shown with.
pub open spec fn app_error_text(e: AppErrorView) -> Seq<char> {
    match e {
        AppErrorView::NoBindAddress => "bind address missing for tcp mode"@,
        AppErrorView::BuildError(m) => "failed to build simulation: "@ + m,
        AppErrorView::AllNodesExited => "all nodes exited"@,
        AppErrorView::MaxNodes { max } => "max number of nodes is "@ + decimal(max as nat),
        AppErrorView::TracingInit(m) => "tracing subscriber error: "@ + m,
        AppErrorView::TuiInit(m) => "TUI init error: "@ + m,
        AppErrorView::TerminalDraw(m) => "failed to draw frame: "@ + m,
        AppErrorView::OtherTUI(m) => "TUI error: "@ + m,
    }
}

fn prefixed(prefix: &str, rest: &String) -> (s: String)
    ensures
        s@ == prefix@ + rest@,
{
    let mut s = String::from_str(prefix);
    s.append(rest.as_str());
    s
}

impl AppError {
    /// The message the error is shown with.
    pub fn message(&self) -> (s: String)
        ensures
            s@ == app_error_text(self@),
    {
        match self {
            AppError::NoBindAddress => String::from_str("bind address missing for tcp mode"),
            AppError::BuildError(m) => prefixed("failed to build simulation: ", m),
            AppError::AllNodesExited => String::from_str("all nodes exited"),
            AppError::MaxNodes { max } => {
                let n = decimal_string(*max as u64);
                prefixed("max number of nodes is ", &n)
            },
            AppError::TracingInit(m) => prefixed("tracing subscriber error: ", m),
            AppError::TuiInit(m) => prefixed("TUI init error: ", m),
            AppError::TerminalDraw(m) => prefixed("failed to draw frame: ", m),
            AppError::OtherTUI(m) => prefixed("TUI error: ", m),
        }
    }
}

/// Errors that occur at the node level. Errors that wrap a lower-level cause
/// hold that cause's message.
#[derive(Clone, Debug)]
pub enum NodeError {
    Config(String),
    ListenFailed(String),
    SwarmStreamEnded,
    KadBootstrapFailed(String),
    MdnsHandler(String),
    KadHandler(String),
    IdentifyHandler(String),
}

/// Abstract form of [`NodeError`].
pub enum NodeErrorView {
    Config(Seq<char>),
    ListenFailed(Seq<char>),
    SwarmStreamEnded,
    KadBootstrapFailed(Seq<char>),
    MdnsHandler(Seq<char>),
    KadHandler(Seq<char>),
    IdentifyHandler(Seq<char>),
}

impl View for NodeError {
    type V = NodeErrorView;

    open spec fn view(&self) -> NodeErrorView {
        match self {
            NodeError::Config(m) => NodeErrorView::Config(m@),
            NodeError::ListenFailed(m) => NodeErrorView::ListenFailed(m@),
            NodeError::SwarmStreamEnded => NodeErrorView::SwarmStreamEnded,
            NodeError::KadBootstrapFailed(m) => NodeErrorView::KadBootstrapFailed(m@),
            NodeError::MdnsHandler(m) => NodeErrorView::MdnsHandler(m@),
            NodeError::KadHandler(m) => NodeErrorView::KadHandler(m@),
            NodeError::IdentifyHandler(m) => NodeErrorView::IdentifyHandler(m@),
        }
    }
}

/// The message a node error is shown with.
pub open spec fn node_error_text(e: NodeErrorView) -> Seq<char> {
    match e {
        NodeErrorView::Config(m) => "node configuration failed: "@ + m,
        NodeErrorView::ListenFailed(_) => "swarm listen failed"@,
        NodeErrorView::SwarmStreamEnded => "swarm stream ended unexpectedly"@,
        NodeErrorView::KadBootstrapFailed(m) => "kad bootstrap failed: "@ + m,
        NodeErrorView::MdnsHandler(m) => "error while handling mdns event: "@ + m,
        NodeErrorView::KadHandler(m) => "error while handling kad event: "@ + m,
        NodeErrorView::IdentifyHandler(m) => "error while handling identify event: "@ + m,
    }
}

impl NodeError {
    /// The message the error is shown with.
    pub fn message(&self) -> (s: String)
        ensures
            s@ == node_error_text(self@),
    {
        match self {
            NodeError::Config(m) => prefixed("node configuration failed: ", m),
            NodeError::ListenFailed(_) => String::from_str("swarm listen failed"),
            NodeError::SwarmStreamEnded => String::from_str("swarm stream ended unexpectedly"),
            NodeError::KadBootstrapFailed(m) => prefixed("kad bootstrap failed: ", m),
            NodeError::MdnsHandler(m) => prefixed("error while handling mdns event: ", m),
            NodeError::KadHandler(m) => prefixed("error while handling kad event: ", m),
            NodeError::IdentifyHandler(m) => prefixed("error while handling identify event: ", m),
        }
    }
}

} // verus!
