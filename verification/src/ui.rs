//! The state the interface shows, apart from drawing: the endpoint list, the
//! selection, what plays, and the colours of statuses.
use vstd::prelude::*;
use crate::types::{NodeStatus, StreamNode, StreamNodeView, views, with_health};
use crate::session::PlayerEvent;

verus! {

/// A colour as red, green and blue channels.
#[derive(Debug, Clone, Copy, PartialEq, Eq, Structural)]
pub struct Rgb {
    pub red: u8,
    pub green: u8,
    pub blue: u8,
}

impl Rgb {
    /// Red channel.
    pub fn r(&self) -> (v: u8)
        ensures
            v == self.red,
    {
        self.red
    }

    /// Green channel.
    pub fn g(&self) -> (v: u8)
        ensures
            v == self.green,
    {
        self.green
    }

    /// Blue channel.
    pub fn b(&self) -> (v: u8)
        ensures
            v == self.blue,
    {
        self.blue
    }
}

/// The colour of a status indicator.
pub open spec fn status_rgb(status: NodeStatus) -> Rgb {
    match status {
        NodeStatus::Online => Rgb { red: 80, green: 200, blue: 80 },
        NodeStatus::Degraded => Rgb { red: 255, green: 200, blue: 0 },
        NodeStatus::Offline => Rgb { red: 220, green: 60, blue: 60 },
        NodeStatus::Unknown => Rgb { red: 150, green: 150, blue: 150 },
    }
}

/// The colour of a status indicator: green when online, yellow when
/// degraded, red when offline, grey when unknown.
pub fn status_color(status: &NodeStatus) -> (c: Rgb)
    ensures
        c == status_rgb(*status),
{
    match status {
        NodeStatus::Online => Rgb { red: 80, green: 200, blue: 80 },
        NodeStatus::Degraded => Rgb { red: 255, green: 200, blue: 0 },
        NodeStatus::Offline => Rgb { red: 220, green: 60, blue: 60 },
        NodeStatus::Unknown => Rgb { red: 150, green: 150, blue: 150 },
    }
}

/// Law: the four status colours are green, yellow, red and grey: online has
/// a dominant green channel, degraded high red and green with little blue,
/// offline a dominant red channel, unknown equal channels.
pub proof fn law_status_colours()
    ensures
        status_rgb(NodeStatus::Online).green > 150 && status_rgb(NodeStatus::Online).red < status_rgb(
            NodeStatus::Online,
        ).green,
        status_rgb(NodeStatus::Degraded).red > 200 && status_rgb(NodeStatus::Degraded).green > 150
            && status_rgb(NodeStatus::Degraded).blue < 50,
        status_rgb(NodeStatus::Offline).red > 150 && status_rgb(NodeStatus::Offline).green < status_rgb(
            NodeStatus::Offline,
        ).red,
        status_rgb(NodeStatus::Unknown).red == status_rgb(NodeStatus::Unknown).green,
        status_rgb(NodeStatus::Unknown).green == status_rgb(NodeStatus::Unknown).blue,
        forall|a: NodeStatus, b: NodeStatus| a != b ==> status_rgb(a) != status_rgb(b),
{
}

/// A request to play a node, for the player thread.
#[derive(Debug, Clone, PartialEq, Eq)]
pub struct PlayRequest {
    pub primary_url: String,
    pub secondary_url: Option<String>,
    pub node_idx: usize,
}

/// Whether the play/pause button pauses or resumes.
#[derive(Debug, Clone, Copy, PartialEq, Eq, Structural)]
pub enum PauseToggle {
    Pause,
    Resume,
}

/// What the interface shows, apart from drawing and the volume.
pub struct ViewState {
    /// The endpoints, as loaded.
    pub nodes: Vec<StreamNode>,
    /// The endpoint selected in the side bar.
    pub selected: Option<usize>,
    /// Whether playback is paused.
    pub is_paused: bool,
    /// The URL playing now.
    pub active_url: Option<String>,
    /// The error to display (cleared when a new playback starts).
    pub error_msg: Option<String>,
}

/// A node after taking the health fields of a shared node that was checked.
pub open spec fn synced(node: StreamNodeView, shared: StreamNodeView) -> StreamNodeView {
    if shared.last_checked is Some {
        with_health(node, shared.status, shared.last_checked)
    } else {
        node
    }
}

/// Nodes after syncing from the health service's list, index by index.
pub open spec fn synced_nodes(nodes: Seq<StreamNodeView>, shared: Seq<StreamNodeView>) -> Seq<StreamNodeView> {
    Seq::new(nodes.len(), |i: int| if i < shared.len() {
        synced(nodes[i], shared[i])
    } else {
        nodes[i]
    })
}

impl ViewState {
    /// The state at start: the given endpoints, nothing selected or playing.
    pub fn new(nodes: Vec<StreamNode>) -> (s: Self)
        ensures
            s.nodes@ == nodes@,
            s.selected is None,
            !s.is_paused,
            s.active_url is None,
            s.error_msg is None,
    {
        ViewState { nodes, selected: None, is_paused: false, active_url: None, error_msg: None }
    }

    /// Selects endpoint `idx` and asks to play it: an existing endpoint
    /// becomes the selection, playback is no longer paused, the error is
    /// cleared, and the request carries its URLs. An index past the list
    /// changes nothing and asks nothing.
    pub fn select_and_play(&mut self, idx: usize) -> (req: Option<PlayRequest>)
        ensures
            final(self).nodes@ == old(self).nodes@,
            final(self).active_url == old(self).active_url,
            idx < old(self).nodes@.len() ==> {
                &&& final(self).selected == Some(idx)
                &&& !final(self).is_paused
                &&& final(self).error_msg is None
                &&& req matches Some(r) && r.node_idx == idx && r.primary_url@
                    == old(self).nodes@[idx as int]@.primary_url && crate::types::opt_chars(
                    r.secondary_url,
                ) == old(self).nodes@[idx as int]@.secondary_url
            },
            idx >= old(self).nodes@.len() ==> {
                &&& req is None
                &&& final(self).selected == old(self).selected
                &&& final(self).is_paused == old(self).is_paused
                &&& final(self).error_msg == old(self).error_msg
            },
    {
        if idx < self.nodes.len() {
            let primary_url = self.nodes[idx].primary_url.clone();
            let secondary_url = match &self.nodes[idx].secondary_url {
                Some(s) => Some(s.clone()),
                None => None,
            };
            self.selected = Some(idx);
            self.is_paused = false;
            self.error_msg = None;
            Some(PlayRequest { primary_url, secondary_url, node_idx: idx })
        } else {
            None
        }
    }

    /// Applies an event of the player thread: a status update for an
    /// existing node sets its status, the active URL is replaced, an error
    /// becomes the message shown, pause and resume set the paused flag.
    pub fn apply_event(&mut self, event: PlayerEvent)
        ensures
            match event {
                PlayerEvent::StatusUpdate { node_idx, status } => {
                    &&& views(final(self).nodes@) == if node_idx < old(self).nodes@.len() {
                        views(old(self).nodes@).update(
                            node_idx as int,
                            crate::fallback::with_status(old(self).nodes@[node_idx as int]@, status),
                        )
                    } else {
                        views(old(self).nodes@)
                    }
                    &&& final(self).selected == old(self).selected
                    &&& final(self).is_paused == old(self).is_paused
                    &&& final(self).active_url == old(self).active_url
                    &&& final(self).error_msg == old(self).error_msg
                },
                PlayerEvent::ActiveUrl(url) => {
                    &&& final(self).active_url == url
                    &&& final(self).nodes@ == old(self).nodes@
                    &&& final(self).selected == old(self).selected
                    &&& final(self).is_paused == old(self).is_paused
                    &&& final(self).error_msg == old(self).error_msg
                },
                PlayerEvent::PlaybackError(msg) => {
                    &&& final(self).error_msg == Some(msg)
                    &&& final(self).nodes@ == old(self).nodes@
                    &&& final(self).selected == old(self).selected
                    &&& final(self).is_paused == old(self).is_paused
                    &&& final(self).active_url == old(self).active_url
                },
                PlayerEvent::Paused | PlayerEvent::Resumed => {
                    &&& final(self).is_paused == (event == PlayerEvent::Paused)
                    &&& final(self).nodes@ == old(self).nodes@
                    &&& final(self).selected == old(self).selected
                    &&& final(self).active_url == old(self).active_url
                    &&& final(self).error_msg == old(self).error_msg
                },
            },
    {
        match event {
            PlayerEvent::StatusUpdate { node_idx, status } => {
                if node_idx < self.nodes.len() {
                    self.nodes[node_idx].status = status;
                }
                assert(views(self.nodes@) =~= if node_idx < old(self).nodes@.len() {
                    views(old(self).nodes@).update(
                        node_idx as int,
                        crate::fallback::with_status(old(self).nodes@[node_idx as int]@, status),
                    )
                } else {
                    views(old(self).nodes@)
                });
            },
            PlayerEvent::ActiveUrl(url) => {
                self.active_url = url;
            },
            PlayerEvent::PlaybackError(msg) => {
                self.error_msg = Some(msg);
            },
            PlayerEvent::Paused => {
                self.is_paused = true;
            },
            PlayerEvent::Resumed => {
                self.is_paused = false;
            },
        }
    }

    /// Takes status and time of the last check from the health service's
    /// list, index by index, for the nodes that service has checked.
    pub fn sync_from_health(&mut self, shared: &[StreamNode])
        ensures
            views(final(self).nodes@) == synced_nodes(views(old(self).nodes@), views(shared@)),
            final(self).selected == old(self).selected,
            final(self).is_paused == old(self).is_paused,
            final(self).active_url == old(self).active_url,
            final(self).error_msg == old(self).error_msg,
    {
        let ghost start = views(self.nodes@);
        let ghost sv = views(shared@);
        let n = shared.len();
        let mut i: usize = 0;
        while i < n
            invariant
                n == shared@.len(),
                sv == views(shared@),
                i <= n,
                self.nodes@.len() == start.len(),
                forall|k: int| 0 <= k < self.nodes@.len() ==> #[trigger] self.nodes@[k]@ == if k < i {
                    synced(start[k], sv[k])
                } else {
                    start[k]
                },
                self.selected == old(self).selected,
                self.is_paused == old(self).is_paused,
                self.active_url == old(self).active_url,
                self.error_msg == old(self).error_msg,
            decreases n - i,
        {
            assert(sv[i as int] == shared@[i as int]@);
            if i < self.nodes.len() {
                assert(self.nodes@[i as int]@ == start[i as int]);
                let checked = shared[i].last_checked;
                if checked.is_some() {
                    let status = shared[i].status;
                    self.nodes[i].status = status;
                    self.nodes[i].last_checked = checked;
                }
                assert(self.nodes@[i as int]@ == synced(start[i as int], sv[i as int]));
            }
            i = i + 1;
        }
        assert(views(self.nodes@) =~= synced_nodes(start, sv));
    }

    /// Whether the playback controls are enabled: something is selected and plays.
    pub fn can_control(&self) -> (b: bool)
        ensures
            b == (self.selected is Some && self.active_url is Some),
    {
        self.selected.is_some() && self.active_url.is_some()
    }

    /// What the play/pause button does: resume when paused, pause otherwise.
    pub fn pause_toggle(&self) -> (t: PauseToggle)
        ensures
            t == if self.is_paused {
                PauseToggle::Resume
            } else {
                PauseToggle::Pause
            },
    {
        if self.is_paused {
            PauseToggle::Resume
        } else {
            PauseToggle::Pause
        }
    }

    /// The stop button: nothing plays any more and playback is not paused.
    pub fn stop_pressed(&mut self)
        ensures
            final(self).active_url is None,
            !final(self).is_paused,
            final(self).nodes@ == old(self).nodes@,
            final(self).selected == old(self).selected,
            final(self).error_msg == old(self).error_msg,
    {
        self.active_url = None;
        self.is_paused = false;
    }
}

/// Law: syncing from the health service gives node `i` the status and the
/// check time of the service's node `i` exactly when that one has been
/// checked; every other node, and every other field, stays as it was, and
/// the list keeps its length.
pub proof fn law_sync_only_checked(nodes: Seq<StreamNodeView>, shared: Seq<StreamNodeView>, i: int)
    requires
        0 <= i < nodes.len(),
    ensures
        synced_nodes(nodes, shared).len() == nodes.len(),
        (i < shared.len() && shared[i].last_checked is Some) ==> {
            &&& synced_nodes(nodes, shared)[i].status == shared[i].status
            &&& synced_nodes(nodes, shared)[i].last_checked == shared[i].last_checked
        },
        !(i < shared.len() && shared[i].last_checked is Some) ==> synced_nodes(nodes, shared)[i]
            == nodes[i],
        synced_nodes(nodes, shared)[i].name == nodes[i].name,
        synced_nodes(nodes, shared)[i].primary_url == nodes[i].primary_url,
        synced_nodes(nodes, shared)[i].secondary_url == nodes[i].secondary_url,
        synced_nodes(nodes, shared)[i].ip_address == nodes[i].ip_address,
{
}

/// How long ago a node was checked, as the side bar words it.
#[derive(Debug, Clone, Copy, PartialEq, Eq, Structural)]
pub enum CheckedAgo {
    /// Less than a minute ago.
    JustNow,
    /// That many whole minutes ago.
    Minutes(i64),
}

/// How to word the time since the last check, given in whole minutes:
/// under one minute is "just now", otherwise the number of minutes.
pub fn checked_ago(ago_mins: i64) -> (a: CheckedAgo)
    ensures
        a == if ago_mins < 1 {
            CheckedAgo::JustNow
        } else {
            CheckedAgo::Minutes(ago_mins)
        },
{
    if ago_mins < 1 {
        CheckedAgo::JustNow
    } else {
        CheckedAgo::Minutes(ago_mins)
    }
}

} // verus!
