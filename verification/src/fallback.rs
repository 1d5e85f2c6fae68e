//! Automatic fallback from a node's primary URL to its secondary URL.
//!
//! Attempt `0` plays the primary URL, attempt `1` the secondary URL (when the
//! node has one); there is nothing left to try after that. The node's status
//! follows the attempt in use: `Online`, `Degraded`, then `Offline`.
use vstd::prelude::*;
use crate::types::{NodeStatus, StreamNode, StreamNodeView};

verus! {

/// The URL to try at a given attempt, as characters.
pub open spec fn url_for_attempt(node: StreamNodeView, attempt: int) -> Option<Seq<char>> {
    if attempt == 0 {
        Some(node.primary_url)
    } else if attempt == 1 {
        node.secondary_url
    } else {
        None
    }
}

/// The status a node has while the given attempt is the active one.
pub open spec fn status_for_attempt(attempt: int) -> NodeStatus {
    if attempt == 0 {
        NodeStatus::Online
    } else if attempt == 1 {
        NodeStatus::Degraded
    } else {
        NodeStatus::Offline
    }
}

/// The characters of an optional string slice.
pub open spec fn opt_str_chars(s: Option<&str>) -> Option<Seq<char>> {
    match s {
        Some(v) => Some(v@),
        None => None,
    }
}

/// A node view with only its status replaced.
pub open spec fn with_status(node: StreamNodeView, status: NodeStatus) -> StreamNodeView {
    StreamNodeView { status, ..node }
}

/// Returns the URL to try at attempt `attempt`: the primary URL at `0`, the
/// secondary URL (if any) at `1`, and nothing from `2` on.
pub fn next_url<'a>(node: &'a StreamNode, attempt: usize) -> (r: Option<&'a str>)
    ensures
        opt_str_chars(r) == url_for_attempt(node@, attempt as int),
{
    if attempt == 0 {
        Some(node.primary_url.as_str())
    } else if attempt == 1 {
        match &node.secondary_url {
            Some(s) => Some(s.as_str()),
            None => None,
        }
    } else {
        None
    }
}

/// Sets the node's status from the active attempt: `0` is `Online`, `1` is
/// `Degraded`, anything above is `Offline`. Nothing else of the node changes.
pub fn update_status(node: &mut StreamNode, attempt: usize)
    ensures
        final(node)@ == with_status(old(node)@, status_for_attempt(attempt as int)),
{
    node.status = if attempt == 0 {
        NodeStatus::Online
    } else if attempt == 1 {
        NodeStatus::Degraded
    } else {
        NodeStatus::Offline
    };
}

/// What the player reported while a node was playing.
#[derive(Debug, Clone, Copy, PartialEq, Eq, Structural)]
pub enum PlaybackSignal {
    /// Playback of the current URL failed (stream, network, codec...).
    Failed,
    /// The player shut down.
    Shutdown,
    /// The current file or stream ended.
    EndFile,
    /// No event arrived within the wait.
    Timeout,
    /// Any other player event.
    Other,
}

/// What to do after a [`PlaybackSignal`].
#[derive(Debug, Clone, PartialEq, Eq)]
pub enum FallbackAction {
    /// Keep waiting for player events.
    KeepWaiting,
    /// Load this URL now; the node's status already reflects it.
    Switch(String),
    /// Playback ended: stop successfully.
    Finished,
    /// Every URL of the node failed: stop with an error.
    Exhausted,
}

/// The attempt that follows a signal.
pub open spec fn attempt_after(attempt: int, signal: PlaybackSignal) -> int {
    if signal == PlaybackSignal::Failed {
        attempt + 1
    } else {
        attempt
    }
}

/// The node after a signal: a failure marks it with the status of the next
/// attempt, or `Offline` when no URL is left to try.
pub open spec fn node_after(node: StreamNodeView, attempt: int, signal: PlaybackSignal) -> StreamNodeView {
    if signal == PlaybackSignal::Failed {
        if url_for_attempt(node, attempt + 1) is Some {
            with_status(node, status_for_attempt(attempt + 1))
        } else {
            with_status(node, NodeStatus::Offline)
        }
    } else {
        node
    }
}

/// Whether `action` is the right reaction to `signal` at `attempt`.
pub open spec fn action_after(
    node: StreamNodeView,
    attempt: int,
    signal: PlaybackSignal,
    action: FallbackAction,
) -> bool {
    match signal {
        PlaybackSignal::Failed => match url_for_attempt(node, attempt + 1) {
            Some(url) => action matches FallbackAction::Switch(u) && u@ == url,
            None => action == FallbackAction::Exhausted,
        },
        PlaybackSignal::Shutdown | PlaybackSignal::EndFile => action == FallbackAction::Finished,
        PlaybackSignal::Timeout | PlaybackSignal::Other => action == FallbackAction::KeepWaiting,
    }
}

/// The URL that playback of a node starts with: its primary URL.
pub fn first_url(node: &StreamNode) -> (url: String)
    ensures
        url@ == node@.primary_url,
{
    match next_url(node, 0) {
        Some(u) => u.to_owned(),
        None => node.primary_url.clone(),
    }
}

/// One step of the fallback loop: given the active `attempt` and what the
/// player reported, returns the next attempt and the action to take. A
/// failure moves to the next URL and marks the node with that attempt's
/// status (`Degraded` for the secondary URL), or, when no URL is left, marks
/// it `Offline` and gives up. Shutdown and end of file end
/// playback successfully; anything else keeps waiting.
pub fn fallback_step(node: &mut StreamNode, attempt: usize, signal: PlaybackSignal) -> (res: (
    usize,
    FallbackAction,
))
    requires
        attempt < usize::MAX,
    ensures
        res.0 == attempt_after(attempt as int, signal),
        final(node)@ == node_after(old(node)@, attempt as int, signal),
        action_after(old(node)@, attempt as int, signal, res.1),
{
    match signal {
        PlaybackSignal::Failed => {
            let next_attempt = attempt + 1;
            let next = match next_url(node, next_attempt) {
                Some(u) => Some(u.to_owned()),
                None => None,
            };
            match next {
                Some(u) => {
                    update_status(node, next_attempt);
                    (next_attempt, FallbackAction::Switch(u))
                },
                None => {
                    node.status = NodeStatus::Offline;
                    (next_attempt, FallbackAction::Exhausted)
                },
            }
        },
        PlaybackSignal::Shutdown | PlaybackSignal::EndFile => (attempt, FallbackAction::Finished),
        PlaybackSignal::Timeout | PlaybackSignal::Other => (attempt, FallbackAction::KeepWaiting),
    }
}

/// Law: the fallback loop gives up after at most two failures. Starting from
/// the primary URL, a first failure switches to the secondary URL (marking the
/// node `Degraded`) when there is one, and gives up otherwise; a second failure
/// always gives up, and the node is then `Offline`.
pub proof fn law_failures_exhaust(node: StreamNodeView)
    ensures
        url_for_attempt(node, 1) is Some ==> node_after(node, 0, PlaybackSignal::Failed).status
            == NodeStatus::Degraded,
        url_for_attempt(node, 1) is Some ==> forall|a: FallbackAction|
            action_after(node, 0, PlaybackSignal::Failed, a) ==> (a matches FallbackAction::Switch(u)
                && node.secondary_url == Some(u@)),
        url_for_attempt(node, 1) is None ==> forall|a: FallbackAction|
            action_after(node, 0, PlaybackSignal::Failed, a) ==> a == FallbackAction::Exhausted,
        url_for_attempt(node, 1) is None ==> node_after(node, 0, PlaybackSignal::Failed).status
            == NodeStatus::Offline,
        forall|a: FallbackAction|
            action_after(node, 1, PlaybackSignal::Failed, a) ==> a == FallbackAction::Exhausted,
        node_after(node, 1, PlaybackSignal::Failed).status == NodeStatus::Offline,
        forall|k: int| k >= 2 ==> url_for_attempt(node, k) is None,
{
}

/// Law: a signal other than a failure never changes the node nor the attempt.
pub proof fn law_only_failures_advance(node: StreamNodeView, attempt: int, signal: PlaybackSignal)
    requires
        signal != PlaybackSignal::Failed,
    ensures
        node_after(node, attempt, signal) == node,
        attempt_after(attempt, signal) == attempt,
{
}

/// Law: at every attempt, a quiet wait or any other player event keeps the
/// loop waiting on the URL in use and nothing else; only shutdown or end of
/// file finishes it, and only a failure switches URL or gives up. Neither
/// a quiet signal nor an ending one touches the node or the attempt.
pub proof fn law_signal_actions(node: StreamNodeView, attempt: int, a: FallbackAction)
    ensures
        action_after(node, attempt, PlaybackSignal::Timeout, a) <==> a == FallbackAction::KeepWaiting,
        action_after(node, attempt, PlaybackSignal::Other, a) <==> a == FallbackAction::KeepWaiting,
        action_after(node, attempt, PlaybackSignal::Shutdown, a) <==> a == FallbackAction::Finished,
        action_after(node, attempt, PlaybackSignal::EndFile, a) <==> a == FallbackAction::Finished,
        action_after(node, attempt, PlaybackSignal::Failed, a) ==> (a is Switch || a is Exhausted),
        node_after(node, attempt, PlaybackSignal::Timeout) == node,
        node_after(node, attempt, PlaybackSignal::Other) == node,
        node_after(node, attempt, PlaybackSignal::Shutdown) == node,
        node_after(node, attempt, PlaybackSignal::EndFile) == node,
        attempt_after(attempt, PlaybackSignal::Timeout) == attempt,
        attempt_after(attempt, PlaybackSignal::Other) == attempt,
{
}

} // verus!
