use mx_player::session::{pause_events, play_outcome_events, resume_events, ErrorStep, PlayerEvent, PlayerSession};
use mx_player::types::{NodeStatus, StreamNode, Timestamp};
use mx_player::ui::{status_color, PauseToggle, ViewState};

fn tags(events: &[PlayerEvent]) -> Vec<String> {
    let mut tags = Vec::new();
    for ev in events {
        match ev {
            PlayerEvent::ActiveUrl(Some(u)) => tags.push(format!("url:{}", u)),
            PlayerEvent::ActiveUrl(None) => tags.push("url:none".into()),
            PlayerEvent::StatusUpdate { status, .. } => tags.push(format!("status:{:?}", status)),
            PlayerEvent::Paused => tags.push("paused".into()),
            PlayerEvent::Resumed => tags.push("resumed".into()),
            PlayerEvent::PlaybackError(e) => tags.push(format!("error:{}", e)),
        }
    }
    tags
}

#[test]
fn status_color_online_is_greenish() {
    let c = status_color(&NodeStatus::Online);
    assert!(c.g() > 150, "verde esperado no canal G");
    assert!(c.r() < c.g(), "online: G > R");
}

#[test]
fn status_color_degraded_is_yellowish() {
    let c = status_color(&NodeStatus::Degraded);
    assert!(c.r() > 200, "amarelo: R alto");
    assert!(c.g() > 150, "amarelo: G alto");
    assert!(c.b() < 50, "amarelo: B baixo");
}

#[test]
fn status_color_offline_is_reddish() {
    let c = status_color(&NodeStatus::Offline);
    assert!(c.r() > 150, "vermelho: R alto");
    assert!(c.g() < c.r(), "offline: R > G");
}

#[test]
fn status_color_unknown_is_grayish() {
    let c = status_color(&NodeStatus::Unknown);
    let diff_rg = (c.r() as i32 - c.g() as i32).abs();
    let diff_gb = (c.g() as i32 - c.b() as i32).abs();
    assert!(diff_rg < 20, "cinza: R≈G");
    assert!(diff_gb < 20, "cinza: G≈B");
}

#[test]
fn play_command_emits_status_and_url() {
    let mut session = PlayerSession::new();
    let url = session.start("http://example.com/s.m3u8".into(), None, 0);
    let events = tags(&play_outcome_events(0, NodeStatus::Online, url, Ok(())));
    assert!(events.iter().any(|e| e.starts_with("status:")), "deve emitir StatusUpdate");
    assert!(events.iter().any(|e| e.starts_with("url:")), "deve emitir ActiveUrl");
}

#[test]
fn stop_command_clears_url() {
    let mut session = PlayerSession::new();
    let _ = session.start("http://example.com/s.m3u8".into(), None, 0);
    let events = tags(&session.stop());
    assert!(events.contains(&"url:none".to_string()), "Stop deve emitir ActiveUrl(None)");
}

#[test]
fn pause_emits_paused_event() {
    let events = tags(&pause_events(Ok(())));
    assert!(events.contains(&"paused".to_string()));
}

#[test]
fn resume_emits_resumed_event() {
    let events = tags(&resume_events(Ok(())));
    assert!(events.contains(&"resumed".to_string()));
}

#[test]
fn failed_play_reports_error_only() {
    let events = tags(&play_outcome_events(3, NodeStatus::Online, "u".into(), Err("boom".into())));
    assert_eq!(events, vec!["error:boom".to_string()]);
    assert!(pause_events(Err("x".into())).is_empty());
    assert!(resume_events(Err("x".into())).is_empty());
}

#[test]
fn stream_errors_retry_secondary_then_give_up() {
    let mut session = PlayerSession::new();
    let url = session.start("http://p".into(), Some("http://s".into()), 4);
    assert_eq!(url, "http://p");
    match session.on_stream_error() {
        ErrorStep::Retry { url, node_idx, status } => {
            assert_eq!(url, "http://s");
            assert_eq!(node_idx, 4);
            assert_eq!(status, NodeStatus::Degraded);
        }
        other => panic!("unexpected {:?}", other),
    }
    assert!(session.is_playing());
    match session.on_stream_error() {
        ErrorStep::GiveUp(events) => {
            assert_eq!(
                tags(&events),
                vec![
                    "status:Offline".to_string(),
                    "error:Todas as URLs falharam".to_string(),
                    "url:none".to_string()
                ]
            );
        }
        other => panic!("unexpected {:?}", other),
    }
    assert!(!session.is_playing());
    assert_eq!(session.on_stream_error(), ErrorStep::Idle);
}

#[test]
fn stream_error_without_secondary_gives_up_at_once() {
    let mut session = PlayerSession::new();
    let _ = session.start("http://p".into(), None, 1);
    match session.on_stream_error() {
        ErrorStep::GiveUp(events) => assert_eq!(events[0], PlayerEvent::StatusUpdate { node_idx: 1, status: NodeStatus::Offline }),
        other => panic!("unexpected {:?}", other),
    }
}

#[test]
fn stop_of_playing_node_resets_its_status() {
    let mut session = PlayerSession::new();
    let _ = session.start("http://p".into(), None, 2);
    assert_eq!(
        session.stop(),
        vec![PlayerEvent::StatusUpdate { node_idx: 2, status: NodeStatus::Unknown }, PlayerEvent::ActiveUrl(None)]
    );
    assert_eq!(session.stop(), vec![PlayerEvent::ActiveUrl(None)]);
}

fn sample_nodes() -> Vec<StreamNode> {
    vec![
        StreamNode {
            name: "A".into(),
            primary_url: "http://a".into(),
            secondary_url: Some("http://a2".into()),
            ..Default::default()
        },
        StreamNode { name: "B".into(), primary_url: "http://b".into(), ..Default::default() },
    ]
}

#[test]
fn selecting_a_node_requests_its_urls() {
    let mut view = ViewState::new(sample_nodes());
    view.error_msg = Some("old".into());
    view.is_paused = true;
    let req = view.select_and_play(0).unwrap();
    assert_eq!(req.primary_url, "http://a");
    assert_eq!(req.secondary_url.as_deref(), Some("http://a2"));
    assert_eq!(req.node_idx, 0);
    assert_eq!(view.selected, Some(0));
    assert!(!view.is_paused);
    assert!(view.error_msg.is_none());
    assert!(view.select_and_play(7).is_none());
    assert_eq!(view.selected, Some(0));
}

#[test]
fn player_events_update_the_view() {
    let mut view = ViewState::new(sample_nodes());
    let _ = view.select_and_play(1);
    view.apply_event(PlayerEvent::StatusUpdate { node_idx: 1, status: NodeStatus::Online });
    view.apply_event(PlayerEvent::StatusUpdate { node_idx: 9, status: NodeStatus::Offline });
    view.apply_event(PlayerEvent::ActiveUrl(Some("http://b".into())));
    assert_eq!(view.nodes[1].status, NodeStatus::Online);
    assert!(view.can_control());
    assert_eq!(view.pause_toggle(), PauseToggle::Pause);
    view.apply_event(PlayerEvent::Paused);
    assert_eq!(view.pause_toggle(), PauseToggle::Resume);
    view.apply_event(PlayerEvent::Resumed);
    assert!(!view.is_paused);
    view.apply_event(PlayerEvent::PlaybackError("falhou".into()));
    assert_eq!(view.error_msg.as_deref(), Some("falhou"));
    view.stop_pressed();
    assert!(view.active_url.is_none());
    assert!(!view.can_control());
}

#[test]
fn health_sync_takes_only_checked_nodes() {
    let mut view = ViewState::new(sample_nodes());
    let t = Timestamp { secs: 1, nanos: 2 };
    let shared = vec![
        StreamNode { status: NodeStatus::Offline, last_checked: None, ..Default::default() },
        StreamNode { status: NodeStatus::Degraded, last_checked: Some(t), ..Default::default() },
        StreamNode { status: NodeStatus::Online, last_checked: Some(t), ..Default::default() },
    ];
    view.sync_from_health(&shared);
    assert_eq!(view.nodes.len(), 2);
    assert_eq!(view.nodes[0].status, NodeStatus::Unknown);
    assert_eq!(view.nodes[1].status, NodeStatus::Degraded);
    assert_eq!(view.nodes[1].last_checked, Some(t));
    assert_eq!(view.nodes[1].name, "B");
}
