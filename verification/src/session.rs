//! Decisions of the player thread: which URL to load when playback starts or
//! fails, and which events the interface is told about.
use vstd::prelude::*;
use crate::types::{NodeStatus, StreamNode, opt_chars};
use crate::fallback::{next_url, update_status};

verus! {

/// Events the player thread sends to the interface.
#[derive(Debug, Clone, PartialEq, Eq)]
pub enum PlayerEvent {
    /// A node's status changed because of playback.
    StatusUpdate { node_idx: usize, status: NodeStatus },
    /// The URL now playing (`None`: stopped).
    ActiveUrl(Option<String>),
    /// A playback error, for display.
    PlaybackError(String),
    /// Playback paused.
    Paused,
    /// Playback resumed.
    Resumed,
}

/// Playback in progress as the player thread tracks it.
struct PlaybackState {
    node_idx: usize,
    /// The URLs in order: primary, then the secondary one if any.
    urls: Vec<String>,
    /// Index of the URL in use (0 primary, 1 secondary).
    attempt: usize,
}

/// The abstract playback in progress: node index, URLs, attempt.
pub struct PlaybackView {
    pub node_idx: usize,
    pub urls: Seq<Seq<char>>,
    pub attempt: usize,
}

/// The player thread's session: the playback in progress, if any.
pub struct PlayerSession {
    state: Option<PlaybackState>,
}

/// What the player thread does after the stream reported an error.
#[derive(Debug, Clone, PartialEq, Eq)]
pub enum ErrorStep {
    /// Nothing is playing: nothing to do.
    Idle,
    /// Load `url`; if that works, node `node_idx` has status `status`.
    Retry { url: String, node_idx: usize, status: NodeStatus },
    /// Every URL failed: playback is over; send these events.
    GiveUp(Vec<PlayerEvent>),
}

/// The characters of the message sent when every URL of a node failed.
pub open spec fn all_failed_message() -> Seq<char> {
    "Todas as URLs falharam"@
}

/// The URLs a playback goes through: the primary URL, then the secondary one if any.
pub open spec fn playback_urls(primary: Seq<char>, secondary: Option<Seq<char>>) -> Seq<Seq<char>> {
    match secondary {
        Some(s) => seq![primary, s],
        None => seq![primary],
    }
}

/// The playback after a stream error: the secondary URL if the primary one
/// was playing and there is a secondary one; otherwise playback is over.
pub open spec fn after_error(p: PlaybackView) -> Option<PlaybackView> {
    if p.attempt == 0 && p.urls.len() == 2 {
        Some(PlaybackView { attempt: 1, ..p })
    } else {
        None
    }
}

/// Law: a playback survives at most one stream error. Started on a node,
/// the first error moves to the secondary URL when the node has one and
/// ends playback otherwise; the second error always ends it.
pub proof fn law_session_at_most_one_retry(node_idx: usize, primary: Seq<char>, secondary: Option<Seq<char>>)
    ensures
        ({
            let p = PlaybackView { node_idx, urls: playback_urls(primary, secondary), attempt: 0 };
            &&& (after_error(p) is Some) == (secondary is Some)
            &&& match after_error(p) {
                Some(q) => after_error(q) is None && q.node_idx == node_idx && q.urls[1] == secondary->0,
                None => true,
            }
        }),
{
}

impl PlayerSession {
    #[verifier::type_invariant]
    spec fn well_formed(self) -> bool {
        match self.state {
            Some(s) => 1 <= s.urls@.len() <= 2 && s.attempt <= 1 && (s.attempt == 1
                ==> s.urls@.len() == 2),
            None => true,
        }
    }

    /// The playback in progress.
    pub closed spec fn playing(self) -> Option<PlaybackView> {
        match self.state {
            Some(s) => Some(
                PlaybackView {
                    node_idx: s.node_idx,
                    urls: s.urls@.map_values(|u: String| u@),
                    attempt: s.attempt,
                },
            ),
            None => None,
        }
    }

    /// A session with nothing playing.
    pub fn new() -> (s: Self)
        ensures
            s.playing() is None,
    {
        PlayerSession { state: None }
    }

    /// Whether something is playing.
    pub fn is_playing(&self) -> (b: bool)
        ensures
            b == self.playing() is Some,
    {
        self.state.is_some()
    }

    /// Starts playback of node `node_idx` (replacing any playback in
    /// progress) and returns the URL to load: the primary one.
    pub fn start(&mut self, primary_url: String, secondary_url: Option<String>, node_idx: usize) -> (url:
        String)
        ensures
            url@ == primary_url@,
            final(self).playing() == Some(
                PlaybackView {
                    node_idx,
                    urls: playback_urls(primary_url@, opt_chars(secondary_url)),
                    attempt: 0,
                },
            ),
    {
        let ghost expected = playback_urls(primary_url@, opt_chars(secondary_url));
        let url = primary_url.clone();
        let mut urls: Vec<String> = Vec::new();
        urls.push(primary_url);
        match secondary_url {
            Some(s) => urls.push(s),
            None => {},
        }
        assert(urls@.map_values(|u: String| u@) =~= expected);
        self.state = Some(PlaybackState { node_idx, urls, attempt: 0 });
        url
    }

    /// Ends playback on request: the node that was playing goes back to
    /// `Unknown`, and the interface learns that nothing plays.
    pub fn stop(&mut self) -> (events: Vec<PlayerEvent>)
        ensures
            final(self).playing() is None,
            match old(self).playing() {
                Some(p) => events@ == seq![
                    PlayerEvent::StatusUpdate { node_idx: p.node_idx, status: NodeStatus::Unknown },
                    PlayerEvent::ActiveUrl(None),
                ],
                None => events@ == seq![PlayerEvent::ActiveUrl(None)],
            },
    {
        let mut events: Vec<PlayerEvent> = Vec::new();
        match &self.state {
            Some(s) => {
                events.push(PlayerEvent::StatusUpdate { node_idx: s.node_idx, status: NodeStatus::Unknown });
            },
            None => {},
        }
        self.state = None;
        events.push(PlayerEvent::ActiveUrl(None));
        events
    }

    /// Reacts to a stream error: moves to the next URL of the node playing
    /// (the secondary one), or, when none is left, ends playback, marking the
    /// node `Offline` and telling the interface that every URL failed.
    pub fn on_stream_error(&mut self) -> (step: ErrorStep)
        ensures
            match old(self).playing() {
                None => step == ErrorStep::Idle && final(self).playing() is None,
                Some(p) => if p.attempt == 0 && p.urls.len() == 2 {
                    &&& step matches ErrorStep::Retry { url, node_idx, status }
                    &&& url@ == p.urls[1]
                    &&& node_idx == p.node_idx
                    &&& status == NodeStatus::Degraded
                    &&& final(self).playing() == after_error(p)
                } else {
                    &&& step matches ErrorStep::GiveUp(events)
                    &&& events@.len() == 3
                    &&& events@[0] == PlayerEvent::StatusUpdate { node_idx: p.node_idx, status: NodeStatus::Offline }
                    &&& events@[1] matches PlayerEvent::PlaybackError(m) && m@ == all_failed_message()
                    &&& events@[2] == PlayerEvent::ActiveUrl(None)
                    &&& final(self).playing() == after_error(p)
                },
            },
    {
        proof {
            use_type_invariant(&*self);
        }
        match &self.state {
            None => ErrorStep::Idle,
            Some(s) => {
                let attempt = s.attempt + 1;
                let node_idx = s.node_idx;
                let mut node = StreamNode::default();
                node.primary_url = s.urls[0].clone();
                node.secondary_url = if s.urls.len() > 1 {
                    Some(s.urls[1].clone())
                } else {
                    None
                };
                match next_url(&node, attempt) {
                    Some(url) => {
                        let url = url.to_owned();
                        update_status(&mut node, attempt);
                        let status = node.status;
                        let mut urls: Vec<String> = Vec::new();
                        urls.push(s.urls[0].clone());
                        urls.push(s.urls[1].clone());
                        assert(urls@.map_values(|u: String| u@) =~= s.urls@.map_values(|u: String| u@));
                        self.state = Some(PlaybackState { node_idx, urls, attempt });
                        ErrorStep::Retry { url, node_idx, status }
                    },
                    None => {
                        let mut events: Vec<PlayerEvent> = Vec::new();
                        events.push(PlayerEvent::StatusUpdate { node_idx, status: NodeStatus::Offline });
                        events.push(PlayerEvent::PlaybackError(String::from_str("Todas as URLs falharam")));
                        events.push(PlayerEvent::ActiveUrl(None));
                        self.state = None;
                        ErrorStep::GiveUp(events)
                    },
                }
            },
        }
    }
}

/// The events that follow loading `url` for node `node_idx`: on success the
/// node takes `status` and `url` becomes the active URL; on failure the
/// interface gets the error message.
pub fn play_outcome_events(node_idx: usize, status: NodeStatus, url: String, outcome: Result<(), String>) -> (events:
    Vec<PlayerEvent>)
    ensures
        match outcome {
            Ok(()) => events@ == seq![
                PlayerEvent::StatusUpdate { node_idx, status },
                PlayerEvent::ActiveUrl(Some(url)),
            ],
            Err(e) => events@ == seq![PlayerEvent::PlaybackError(e)],
        },
{
    let mut events: Vec<PlayerEvent> = Vec::new();
    match outcome {
        Ok(()) => {
            events.push(PlayerEvent::StatusUpdate { node_idx, status });
            events.push(PlayerEvent::ActiveUrl(Some(url)));
        },
        Err(e) => {
            events.push(PlayerEvent::PlaybackError(e));
        },
    }
    events
}

/// The events after a pause request: `Paused` if the player paused, none otherwise.
pub fn pause_events(outcome: Result<(), String>) -> (events: Vec<PlayerEvent>)
    ensures
        events@ == match outcome {
            Ok(()) => seq![PlayerEvent::Paused],
            Err(_) => Seq::<PlayerEvent>::empty(),
        },
{
    let mut events: Vec<PlayerEvent> = Vec::new();
    if outcome.is_ok() {
        events.push(PlayerEvent::Paused);
    }
    events
}

/// The events after a resume request: `Resumed` if the player resumed, none otherwise.
pub fn resume_events(outcome: Result<(), String>) -> (events: Vec<PlayerEvent>)
    ensures
        events@ == match outcome {
            Ok(()) => seq![PlayerEvent::Resumed],
            Err(_) => Seq::<PlayerEvent>::empty(),
        },
{
    let mut events: Vec<PlayerEvent> = Vec::new();
    if outcome.is_ok() {
        events.push(PlayerEvent::Resumed);
    }
    events
}

} // verus!
