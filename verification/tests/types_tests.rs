use mx_player::types::{NodeStatus, StreamNode, Timestamp};

#[test]
fn node_status_default_is_unknown() {
    assert_eq!(NodeStatus::default(), NodeStatus::Unknown);
}

#[test]
fn stream_node_default_has_empty_urls() {
    let node = StreamNode::default();
    assert!(node.name.is_empty());
    assert!(node.primary_url.is_empty());
    assert!(node.secondary_url.is_none());
    assert!(node.ip_address.is_none());
    assert!(node.last_checked.is_none());
    assert_eq!(node.status, NodeStatus::Unknown);
}

#[test]
fn timestamp_keeps_seconds_and_nanos() {
    let now = chrono::Utc::now();
    let ts = Timestamp { secs: now.timestamp(), nanos: now.timestamp_subsec_nanos() };
    let node = StreamNode { last_checked: Some(ts), ..Default::default() };
    assert_eq!(node.last_checked.unwrap().secs, now.timestamp());
    assert_eq!(node.last_checked.unwrap().nanos, now.timestamp_subsec_nanos());
}
