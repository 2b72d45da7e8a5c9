use aigw_console::connection::{
    frame_action, heartbeat_owner, keeps_reading, pong_millis, ConnectionState, FrameAction, FrameKind,
};

#[test]
fn frames_need_keys_except_handshake_and_close() {
    assert_eq!(frame_action(FrameKind::HandshakeRequest, false), FrameAction::Handshake);
    assert_eq!(frame_action(FrameKind::HeartbeatPing, false), FrameAction::Ignore);
    assert_eq!(frame_action(FrameKind::HeartbeatPing, true), FrameAction::Heartbeat);
    assert_eq!(frame_action(FrameKind::Ack, true), FrameAction::ReadAck);
    assert_eq!(frame_action(FrameKind::Ack, false), FrameAction::Ignore);
    assert_eq!(frame_action(FrameKind::Close, false), FrameAction::Close);
    assert_eq!(frame_action(FrameKind::Unknown, true), FrameAction::Unsupported);
}

#[test]
fn only_close_ends_reading() {
    assert!(keeps_reading(Ok(false)));
    assert!(!keeps_reading(Ok(true)));
    assert!(keeps_reading(Err(())));
}

#[test]
fn heartbeat_owner_needs_cluster() {
    let mut s = ConnectionState::new();
    assert!(heartbeat_owner(&s).is_none());
    s.after_handshake("c1".to_string(), "10.0.0.1".to_string());
    assert!(s.has_crypto);
    assert_eq!(heartbeat_owner(&s), Some(("c1".to_string(), "10.0.0.1".to_string())));
    s.ip = None;
    assert_eq!(heartbeat_owner(&s), Some(("c1".to_string(), String::new())));
}

#[test]
fn pong_time_in_milliseconds() {
    assert_eq!(pong_millis(1_700_000_000_123_456_789), 1_700_000_000_123);
    assert_eq!(pong_millis(-1_500_000), -1);
    assert_eq!(pong_millis(-1_500_000), (-1_500_000i128 / 1_000_000) as i64);
}
