use mx_player::fallback::{fallback_step, first_url, next_url, update_status, FallbackAction, PlaybackSignal};
use mx_player::types::{NodeStatus, StreamNode};

fn make_node(primary: &str, secondary: Option<&str>) -> StreamNode {
    StreamNode {
        name: "Teste".to_string(),
        primary_url: primary.to_string(),
        secondary_url: secondary.map(|s| s.to_string()),
        ip_address: None,
        status: NodeStatus::Unknown,
        last_checked: None,
    }
}

#[test]
fn next_url_attempt0_returns_primary() {
    let node = make_node("http://primary.example.com/s.m3u8", None);
    assert_eq!(next_url(&node, 0), Some("http://primary.example.com/s.m3u8"));
}

#[test]
fn next_url_attempt1_returns_secondary_when_present() {
    let node = make_node(
        "http://primary.example.com/s.m3u8",
        Some("http://secondary.example.com/s.m3u8"),
    );
    assert_eq!(next_url(&node, 1), Some("http://secondary.example.com/s.m3u8"));
}

#[test]
fn next_url_attempt1_returns_none_when_secondary_absent() {
    let node = make_node("http://primary.example.com/s.m3u8", None);
    assert_eq!(next_url(&node, 1), None);
}

#[test]
fn next_url_attempt2_always_none() {
    let node = make_node(
        "http://primary.example.com/s.m3u8",
        Some("http://secondary.example.com/s.m3u8"),
    );
    assert_eq!(next_url(&node, 2), None);
    assert_eq!(next_url(&node, 99), None);
}

#[test]
fn update_status_attempt0_is_online() {
    let mut node = make_node("http://primary.example.com/s.m3u8", None);
    update_status(&mut node, 0);
    assert_eq!(node.status, NodeStatus::Online);
}

#[test]
fn update_status_attempt1_is_degraded() {
    let mut node = make_node("http://primary.example.com/s.m3u8", None);
    update_status(&mut node, 1);
    assert_eq!(node.status, NodeStatus::Degraded);
}

#[test]
fn update_status_attempt2_is_offline() {
    let mut node = make_node("http://primary.example.com/s.m3u8", None);
    update_status(&mut node, 2);
    assert_eq!(node.status, NodeStatus::Offline);
}

#[test]
fn update_status_high_attempt_is_offline() {
    let mut node = make_node("http://primary.example.com/s.m3u8", None);
    update_status(&mut node, 10);
    assert_eq!(node.status, NodeStatus::Offline);
}

#[test]
fn fallback_sequence_with_secondary() {
    let node = make_node(
        "http://primary.example.com/s.m3u8",
        Some("http://secondary.example.com/s.m3u8"),
    );
    assert_eq!(next_url(&node, 0), Some("http://primary.example.com/s.m3u8"));
    assert_eq!(next_url(&node, 1), Some("http://secondary.example.com/s.m3u8"));
    assert_eq!(next_url(&node, 2), None);
}

#[test]
fn fallback_sequence_without_secondary() {
    let node = make_node("http://primary.example.com/s.m3u8", None);
    assert_eq!(next_url(&node, 0), Some("http://primary.example.com/s.m3u8"));
    assert_eq!(next_url(&node, 1), None);
}

#[test]
fn update_status_keeps_other_fields() {
    let mut node = make_node("http://p/s.m3u8", Some("http://s/s.m3u8"));
    update_status(&mut node, 1);
    assert_eq!(node.name, "Teste");
    assert_eq!(node.primary_url, "http://p/s.m3u8");
    assert_eq!(node.secondary_url.as_deref(), Some("http://s/s.m3u8"));
}

#[test]
fn first_url_is_primary() {
    let node = make_node("http://p/s.m3u8", Some("http://s/s.m3u8"));
    assert_eq!(first_url(&node), "http://p/s.m3u8");
}

#[test]
fn fallback_step_switches_then_gives_up() {
    let mut node = make_node("http://p/s.m3u8", Some("http://s/s.m3u8"));
    update_status(&mut node, 0);
    let (attempt, action) = fallback_step(&mut node, 0, PlaybackSignal::Failed);
    assert_eq!(attempt, 1);
    assert_eq!(action, FallbackAction::Switch("http://s/s.m3u8".to_string()));
    assert_eq!(node.status, NodeStatus::Degraded);
    let (attempt, action) = fallback_step(&mut node, attempt, PlaybackSignal::Failed);
    assert_eq!(attempt, 2);
    assert_eq!(action, FallbackAction::Exhausted);
    assert_eq!(node.status, NodeStatus::Offline);
}

#[test]
fn fallback_step_without_secondary_goes_offline_at_once() {
    let mut node = make_node("http://p/s.m3u8", None);
    let (attempt, action) = fallback_step(&mut node, 0, PlaybackSignal::Failed);
    assert_eq!(attempt, 1);
    assert_eq!(action, FallbackAction::Exhausted);
    assert_eq!(node.status, NodeStatus::Offline);
}

#[test]
fn fallback_step_end_and_shutdown_finish() {
    let mut node = make_node("http://p/s.m3u8", None);
    assert_eq!(fallback_step(&mut node, 0, PlaybackSignal::EndFile), (0, FallbackAction::Finished));
    assert_eq!(fallback_step(&mut node, 1, PlaybackSignal::Shutdown), (1, FallbackAction::Finished));
    assert_eq!(node.status, NodeStatus::Unknown);
}

#[test]
fn fallback_step_other_events_keep_waiting() {
    let mut node = make_node("http://p/s.m3u8", None);
    assert_eq!(fallback_step(&mut node, 0, PlaybackSignal::Timeout), (0, FallbackAction::KeepWaiting));
    assert_eq!(fallback_step(&mut node, 0, PlaybackSignal::Other), (0, FallbackAction::KeepWaiting));
    assert_eq!(node.status, NodeStatus::Unknown);
}
