use mx_player::health::{
    apply_saved_state, apply_scan_results, derive_status, http_probe_ok, status_from_probes, tcp_probe_target,
    tcp_target, HttpOutcome, ScanSchedule, WakeAction, WakeReason, MAX_WAIT_MS,
};
use mx_player::types::{NodeStatus, StreamNode, Timestamp};

fn stamp(t: chrono::DateTime<chrono::Utc>) -> Timestamp {
    Timestamp { secs: t.timestamp(), nanos: t.timestamp_subsec_nanos() }
}

#[test]
fn derive_online_when_primary_and_tcp_ok() {
    assert_eq!(derive_status(true, None, true), NodeStatus::Online);
}

#[test]
fn derive_online_ignores_secondary_when_primary_tcp_ok() {
    assert_eq!(derive_status(true, Some(false), true), NodeStatus::Online);
}

#[test]
fn derive_degraded_when_primary_ok_tcp_fails() {
    assert_eq!(derive_status(true, None, false), NodeStatus::Degraded);
}

#[test]
fn derive_degraded_when_primary_fails_secondary_ok() {
    assert_eq!(derive_status(false, Some(true), true), NodeStatus::Degraded);
}

#[test]
fn derive_offline_when_both_urls_fail() {
    assert_eq!(derive_status(false, Some(false), true), NodeStatus::Offline);
}

#[test]
fn derive_offline_when_primary_fails_no_secondary() {
    assert_eq!(derive_status(false, None, true), NodeStatus::Offline);
}

#[test]
fn apply_saved_state_updates_matching_nodes() {
    let ts = stamp(chrono::Utc::now());
    let mut nodes = vec![
        StreamNode {
            name: "Canal A".to_string(),
            status: NodeStatus::Unknown,
            last_checked: None,
            ..Default::default()
        },
        StreamNode {
            name: "Canal B".to_string(),
            status: NodeStatus::Unknown,
            last_checked: None,
            ..Default::default()
        },
    ];

    let saved = vec![StreamNode {
        name: "Canal A".to_string(),
        status: NodeStatus::Online,
        last_checked: Some(ts),
        ..Default::default()
    }];

    apply_saved_state(&mut nodes, &saved);

    assert_eq!(nodes[0].status, NodeStatus::Online);
    assert_eq!(nodes[0].last_checked, Some(ts));
    assert_eq!(nodes[1].status, NodeStatus::Unknown);
    assert!(nodes[1].last_checked.is_none());
}

#[test]
fn apply_saved_state_ignores_unmatched_names() {
    let mut nodes = vec![StreamNode {
        name: "Canal X".to_string(),
        status: NodeStatus::Unknown,
        ..Default::default()
    }];
    let saved = vec![StreamNode {
        name: "Canal Y".to_string(),
        status: NodeStatus::Online,
        last_checked: Some(stamp(chrono::Utc::now())),
        ..Default::default()
    }];

    apply_saved_state(&mut nodes, &saved);
    assert_eq!(nodes[0].status, NodeStatus::Unknown);
}

#[test]
fn apply_saved_state_takes_first_match_and_keeps_urls() {
    let mut nodes = vec![StreamNode {
        name: "A".to_string(),
        primary_url: "http://a/s.m3u8".to_string(),
        ..Default::default()
    }];
    let saved = vec![
        StreamNode { name: "A".to_string(), status: NodeStatus::Degraded, ..Default::default() },
        StreamNode { name: "A".to_string(), status: NodeStatus::Offline, ..Default::default() },
    ];
    apply_saved_state(&mut nodes, &saved);
    assert_eq!(nodes[0].status, NodeStatus::Degraded);
    assert_eq!(nodes[0].primary_url, "http://a/s.m3u8");
}

#[test]
fn restoring_twice_equals_once() {
    let saved = vec![StreamNode {
        name: "A".to_string(),
        status: NodeStatus::Online,
        last_checked: Some(Timestamp { secs: 10, nanos: 5 }),
        ..Default::default()
    }];
    let mut once = vec![StreamNode { name: "A".to_string(), ..Default::default() }];
    apply_saved_state(&mut once, &saved);
    let mut twice = once.clone();
    apply_saved_state(&mut twice, &saved);
    assert_eq!(once[0].status, twice[0].status);
    assert_eq!(once[0].last_checked, twice[0].last_checked);
}

#[test]
fn status_from_probes_without_address_counts_tcp_as_ok() {
    assert_eq!(status_from_probes(true, None, None), NodeStatus::Online);
    assert_eq!(status_from_probes(true, None, Some(false)), NodeStatus::Degraded);
    assert_eq!(status_from_probes(false, Some(true), None), NodeStatus::Degraded);
}

#[test]
fn http_probe_counts_answers_below_500() {
    assert!(http_probe_ok(HttpOutcome::Responded));
    assert!(http_probe_ok(HttpOutcome::Status(404)));
    assert!(http_probe_ok(HttpOutcome::Status(499)));
    assert!(!http_probe_ok(HttpOutcome::Status(500)));
    assert!(!http_probe_ok(HttpOutcome::Status(503)));
    assert!(!http_probe_ok(HttpOutcome::Failed));
}

#[test]
fn tcp_target_appends_default_port() {
    assert_eq!(tcp_target("127.0.0.1"), "127.0.0.1:80");
    assert_eq!(tcp_target("127.0.0.1:1"), "127.0.0.1:1");
    assert_eq!(tcp_target("host.invalido.local.test:80"), "host.invalido.local.test:80");
}

#[test]
fn tcp_probe_target_follows_address() {
    let node = StreamNode { ip_address: Some("10.0.0.1".to_string()), ..Default::default() };
    assert_eq!(tcp_probe_target(&node), Some("10.0.0.1:80".to_string()));
    assert_eq!(tcp_probe_target(&StreamNode::default()), None);
}

#[test]
fn scan_results_are_written_back_by_index() {
    let mut nodes = vec![
        StreamNode { name: "A".to_string(), ..Default::default() },
        StreamNode { name: "B".to_string(), ..Default::default() },
    ];
    let t = Timestamp { secs: 100, nanos: 0 };
    let results = vec![(1, NodeStatus::Offline, t), (5, NodeStatus::Online, t), (1, NodeStatus::Degraded, t)];
    apply_scan_results(&mut nodes, &results);
    assert_eq!(nodes.len(), 2);
    assert_eq!(nodes[0].status, NodeStatus::Unknown);
    assert!(nodes[0].last_checked.is_none());
    assert_eq!(nodes[1].status, NodeStatus::Degraded);
    assert_eq!(nodes[1].last_checked, Some(t));
}

#[test]
fn schedule_scans_at_once_then_every_interval() {
    let mut s = ScanSchedule::new(1_000, 300);
    assert!(s.is_due(1_000));
    s.mark_scanned(2_000);
    assert!(!s.is_due(2_000 + 300_000 - 1));
    assert!(s.is_due(2_000 + 300_000));
    assert_eq!(s.wait_ms(2_000), MAX_WAIT_MS);
    assert_eq!(s.wait_ms(2_000 + 300_000 - 250), 250);
    assert_eq!(s.wait_ms(2_000 + 400_000), 0);
}

#[test]
fn schedule_wake_reasons() {
    let s = ScanSchedule::new(0, 9999);
    assert_eq!(s.on_wake(WakeReason::Triggered), WakeAction::ScanNow);
    assert_eq!(s.on_wake(WakeReason::TimedOut), WakeAction::Continue);
    assert_eq!(s.on_wake(WakeReason::Disconnected), WakeAction::Stop);
}
