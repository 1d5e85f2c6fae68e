use vstd::prelude::*;

verus! {

/// Health state of a stream endpoint.
#[derive(Debug, Clone, Copy, PartialEq, Eq, Structural)]
pub enum NodeStatus {
    Online,
    Degraded,
    Offline,
    Unknown,
}

impl Default for NodeStatus {
    /// A node whose health was never checked is `Unknown`.
    fn default() -> (s: Self)
        ensures
            s == NodeStatus::Unknown,
    {
        NodeStatus::Unknown
    }
}

/// A point in time in UTC: whole seconds since the Unix epoch and the
/// nanoseconds past that second.
#[derive(Debug, Clone, Copy, PartialEq, Eq, Structural)]
pub struct Timestamp {
    pub secs: i64,
    pub nanos: u32,
}

/// A stream endpoint with a primary URL and, optionally, a fallback URL.
#[derive(Debug, Clone)]
pub struct StreamNode {
    /// Descriptive name of the endpoint (e.g. "Canal 1 - SP").
    pub name: String,
    /// Main stream URL (e.g. `http://host/hls/stream.m3u8`).
    pub primary_url: String,
    /// Fallback URL used when the primary one fails.
    pub secondary_url: Option<String>,
    /// IP address or host of the server (for the TCP health check).
    pub ip_address: Option<String>,
    /// Current health state (updated by the health check).
    pub status: NodeStatus,
    /// When the health check last ran for this node.
    pub last_checked: Option<Timestamp>,
}

/// The abstract content of a [`StreamNode`]: its strings as character sequences.
pub struct StreamNodeView {
    pub name: Seq<char>,
    pub primary_url: Seq<char>,
    pub secondary_url: Option<Seq<char>>,
    pub ip_address: Option<Seq<char>>,
    pub status: NodeStatus,
    pub last_checked: Option<Timestamp>,
}

/// The characters of an optional string.
pub open spec fn opt_chars(s: Option<String>) -> Option<Seq<char>> {
    match s {
        Some(v) => Some(v@),
        None => None,
    }
}

impl View for StreamNode {
    type V = StreamNodeView;

    open spec fn view(&self) -> StreamNodeView {
        StreamNodeView {
            name: self.name@,
            primary_url: self.primary_url@,
            secondary_url: opt_chars(self.secondary_url),
            ip_address: opt_chars(self.ip_address),
            status: self.status,
            last_checked: self.last_checked,
        }
    }
}

/// The views of a sequence of nodes.
pub open spec fn views(nodes: Seq<StreamNode>) -> Seq<StreamNodeView> {
    nodes.map_values(|n: StreamNode| n@)
}

/// A node view whose health fields (status and time of the last check) are replaced.
pub open spec fn with_health(
    node: StreamNodeView,
    status: NodeStatus,
    last_checked: Option<Timestamp>,
) -> StreamNodeView {
    StreamNodeView { status, last_checked, ..node }
}

impl Default for StreamNode {
    /// An unnamed node with empty URL, no fallback, no address, never checked.
    fn default() -> (n: Self)
        ensures
            n@.name == Seq::<char>::empty(),
            n@.primary_url == Seq::<char>::empty(),
            n.secondary_url is None,
            n.ip_address is None,
            n.status == NodeStatus::Unknown,
            n.last_checked is None,
    {
        StreamNode {
            name: String::new(),
            primary_url: String::new(),
            secondary_url: None,
            ip_address: None,
            status: NodeStatus::Unknown,
            last_checked: None,
        }
    }
}

} // verus!
