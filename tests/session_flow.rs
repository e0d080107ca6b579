use ws_dashboard::dev::test_keys::{build_auth_message, get_test_key};
use ws_dashboard::errors::DashboardError;
use ws_dashboard::handlers::websocket::{
    AuthState, Closing, ErrorCode, Frame, InboundMessage, Outbound, Reaction, WebSocketSession,
};
use ws_dashboard::models::user::CreateUserDto;
use ws_dashboard::models::websocket::{WebSocketAuthMessage, WebSocketConnectionInfo};
use ws_dashboard::services::signature::SignatureService;
use ws_dashboard::storage::memory::InMemoryUserStorage;

const NOW: i64 = 1_700_000_000;

fn session() -> WebSocketSession {
    WebSocketSession::new(
        "session-1".to_string(),
        "127.0.0.1".to_string(),
        1_000,
        NOW,
        30_000,
        120_000,
        30_000,
        2_000,
    )
}

fn directory_with_user_key(index: usize) -> (SignatureService, i64) {
    let mut storage = InMemoryUserStorage::new();
    let user = storage
        .create_user(CreateUserDto {
            email: "alice@example.com".to_string(),
            username: "alice".to_string(),
            password: "pw".to_string(),
            wallet_address: None,
        })
        .unwrap();
    let key = get_test_key(index).unwrap();
    storage.store_public_key(user.id, &key.public_key).unwrap();
    (SignatureService::new(storage), user.id)
}

fn error_code(r: &Reaction) -> Option<ErrorCode> {
    match &r.reply {
        Some(Outbound::Error { code, .. }) => Some(*code),
        _ => None,
    }
}

fn auth_frame(m: WebSocketAuthMessage) -> Frame {
    Frame::Text(Ok(InboundMessage::Auth(m)))
}

#[test]
fn registered_key_authenticates() {
    let (service, user_id) = directory_with_user_key(0);
    let mut s = session();
    let hello = s.started();
    assert!(matches!(hello.reply, Some(Outbound::ConnectionEstablished)));

    let msg = build_auth_message(0, NOW, "nonce-0001".to_string()).unwrap();
    let r = s.handle(auth_frame(msg), 2_000, NOW + 5);
    assert!(r.reply.is_none());
    assert_eq!(r.close, Closing::Open);
    assert_eq!(s.auth_state, AuthState::Authenticating);
    let pending = r.verify.unwrap();

    let result = service.verify_websocket_auth_at(&pending, NOW + 5);
    assert_eq!(result, Ok(Some(user_id)));
    let r = s.complete_authentication(result);
    assert!(matches!(r.reply, Some(Outbound::AuthSuccess { user_id: 1 })));
    assert_eq!(r.close, Closing::Open);
    assert_eq!(s.auth_state, AuthState::Authenticated);
    assert_eq!(s.user_id, Some(user_id));
    assert_eq!(s.public_key, Some(get_test_key(0).unwrap().public_key));

    // No further error frames while the session idles.
    let r = s.heartbeat_tick(3_000);
    assert!(matches!(r.reply, Some(Outbound::Ping)));
    let r = s.auth_timeout_elapsed();
    assert!(r.reply.is_none());
    assert_eq!(s.auth_state, AuthState::Authenticated);
}

#[test]
fn unregistered_key_gets_unknown_key_then_close() {
    let (service, _) = directory_with_user_key(0);
    let mut s = session();
    let msg = build_auth_message(3, NOW, "nonce-0002".to_string()).unwrap();
    assert_eq!(msg.public_key.len(), 64);
    let r = s.handle(auth_frame(msg), 2_000, NOW);
    let pending = r.verify.unwrap();
    let result = service.verify_websocket_auth_at(&pending, NOW);
    assert_eq!(result, Ok(None));
    let r = s.complete_authentication(result);
    assert_eq!(error_code(&r), Some(ErrorCode::UnknownKey));
    assert_eq!(r.close, Closing::AfterDelay);
    assert_eq!(s.auth_state, AuthState::Failed);
    assert_eq!(s.user_id, None);

    let r = s.close_delay_elapsed();
    assert_eq!(r.close, Closing::Now);
    assert!(s.closed);
    // A closed session ignores everything.
    let r = s.handle(Frame::Ping, 9_000, NOW);
    assert!(r.reply.is_none());
    assert_eq!(s.last_heartbeat, 1_000);
}

#[test]
fn malformed_json_keeps_session_open_for_retry() {
    let (service, user_id) = directory_with_user_key(1);
    let mut s = session();
    let r = s.handle(Frame::Text(Err("expected value at line 1 column 1".to_string())), 1_500, NOW);
    assert_eq!(error_code(&r), Some(ErrorCode::InvalidMessage));
    match &r.reply {
        Some(Outbound::Error { message, .. }) => {
            assert_eq!(message, "Failed to parse message: expected value at line 1 column 1")
        }
        _ => panic!("expected an error frame"),
    }
    assert_eq!(r.close, Closing::Open);
    assert!(!s.closed);
    assert_eq!(s.auth_state, AuthState::NotAuthenticated);

    let msg = build_auth_message(1, NOW, "nonce-retry".to_string()).unwrap();
    let r = s.handle(auth_frame(msg), 2_000, NOW);
    let result = service.verify_websocket_auth_at(&r.verify.unwrap(), NOW);
    s.complete_authentication(result);
    assert_eq!(s.auth_state, AuthState::Authenticated);
    assert_eq!(s.user_id, Some(user_id));
}

#[test]
fn heartbeat_after_auth_and_second_auth_is_informational() {
    let (service, user_id) = directory_with_user_key(0);
    let mut s = session();
    let msg = build_auth_message(0, NOW, "nonce-0003".to_string()).unwrap();
    let r = s.handle(auth_frame(msg), 2_000, NOW);
    s.complete_authentication(service.verify_websocket_auth_at(&r.verify.unwrap(), NOW));
    assert_eq!(s.user_id, Some(user_id));

    let r = s.handle(Frame::Text(Ok(InboundMessage::Heartbeat)), 50_000, NOW + 49);
    assert!(matches!(r.reply, Some(Outbound::HeartbeatAck { timestamp }) if timestamp == NOW + 49));
    assert_eq!(s.last_heartbeat, 50_000);

    let again = build_auth_message(0, NOW, "nonce-0004".to_string()).unwrap();
    let r = s.handle(auth_frame(again), 51_000, NOW + 50);
    assert!(matches!(r.reply, Some(Outbound::AlreadyAuthenticated)));
    assert!(r.verify.is_none());
    assert_eq!(r.close, Closing::Open);
    assert_eq!(s.user_id, Some(user_id));
}

#[test]
fn auth_timeout_fails_and_closes() {
    let mut s = session();
    let r = s.auth_timeout_elapsed();
    assert_eq!(error_code(&r), Some(ErrorCode::AuthTimeout));
    assert_eq!(r.close, Closing::AfterDelay);
    assert_eq!(s.auth_state, AuthState::Failed);
    let r = s.close_delay_elapsed();
    assert_eq!(r.close, Closing::Now);
    assert!(s.closed);
}

#[test]
fn late_verification_after_timeout_is_discarded() {
    let (service, _) = directory_with_user_key(0);
    let mut s = session();
    let msg = build_auth_message(0, NOW, "nonce-0005".to_string()).unwrap();
    let r = s.handle(auth_frame(msg), 2_000, NOW);
    let pending = r.verify.unwrap();
    let r = s.auth_timeout_elapsed();
    assert_eq!(error_code(&r), Some(ErrorCode::AuthTimeout));
    let late = service.verify_websocket_auth_at(&pending, NOW);
    assert!(matches!(late, Ok(Some(_))));
    let r = s.complete_authentication(late);
    assert!(r.reply.is_none());
    assert_eq!(s.auth_state, AuthState::Failed);
    assert_eq!(s.user_id, None);
}

#[test]
fn idle_client_is_dropped_in_any_state() {
    let mut s = session();
    let r = s.heartbeat_tick(121_000);
    assert!(matches!(r.reply, Some(Outbound::Ping)));
    assert!(!s.closed);
    let r = s.heartbeat_tick(121_001);
    assert!(r.reply.is_none());
    assert_eq!(r.close, Closing::Now);
    assert!(s.closed);

    let (service, _) = directory_with_user_key(0);
    let mut s = session();
    let msg = build_auth_message(0, NOW, "nonce-0006".to_string()).unwrap();
    let r = s.handle(auth_frame(msg), 2_000, NOW);
    s.complete_authentication(service.verify_websocket_auth_at(&r.verify.unwrap(), NOW));
    s.handle(Frame::Pong, 10_000, NOW);
    assert!(matches!(s.heartbeat_tick(130_000).reply, Some(Outbound::Ping)));
    let r = s.heartbeat_tick(130_001);
    assert_eq!(r.close, Closing::Now);
    assert!(s.closed);
}

#[test]
fn messages_before_auth_are_refused_without_closing() {
    let mut s = session();
    let r = s.handle(Frame::Text(Ok(InboundMessage::Heartbeat)), 2_000, NOW);
    assert_eq!(error_code(&r), Some(ErrorCode::AuthRequired));
    assert_eq!(r.close, Closing::Open);
    assert_eq!(s.last_heartbeat, 2_000);
    let r = s.handle(Frame::Text(Ok(InboundMessage::ConnectionUpdate { connected: true })), 2_200, NOW);
    assert_eq!(error_code(&r), Some(ErrorCode::AuthRequired));
    assert_eq!(s.last_heartbeat, 2_000);
    let r = s.handle(Frame::Binary, 2_000, NOW);
    assert_eq!(error_code(&r), Some(ErrorCode::Unauthorized));
    assert!(!s.closed);
    let r = s.handle(Frame::Ping, 2_500, NOW);
    assert!(matches!(r.reply, Some(Outbound::Pong)));
    assert_eq!(s.last_heartbeat, 2_500);
}

#[test]
fn second_attempt_while_verifying_is_refused() {
    let mut s = session();
    let msg = build_auth_message(0, NOW, "nonce-0007".to_string()).unwrap();
    let r = s.handle(auth_frame(msg.clone()), 2_000, NOW);
    assert!(r.verify.is_some());
    let r = s.handle(auth_frame(msg), 2_100, NOW);
    assert_eq!(error_code(&r), Some(ErrorCode::InvalidMessage));
    assert!(r.verify.is_none());
    assert_eq!(s.auth_state, AuthState::Authenticating);
}

#[test]
fn stale_timestamp_fails_before_verification() {
    let mut s = session();
    let msg = build_auth_message(0, NOW - 301, "nonce-0008".to_string()).unwrap();
    let r = s.handle(auth_frame(msg), 2_000, NOW);
    assert!(r.verify.is_none());
    assert_eq!(error_code(&r), Some(ErrorCode::AuthFailed));
    assert_eq!(r.close, Closing::AfterDelay);
    assert_eq!(s.auth_state, AuthState::Failed);
    match &r.reply {
        Some(Outbound::Error { message, .. }) => assert_eq!(
            message,
            "Authentication failed: Validation error: Authentication message has expired"
        ),
        _ => panic!("expected an error frame"),
    }
}

#[test]
fn verification_error_reports_auth_failed() {
    let mut s = session();
    let msg = build_auth_message(0, NOW, "nonce-0009".to_string()).unwrap();
    s.handle(auth_frame(msg), 2_000, NOW);
    let r = s.complete_authentication(Err(DashboardError::Authentication("Invalid signature".to_string())));
    assert_eq!(error_code(&r), Some(ErrorCode::AuthFailed));
    match &r.reply {
        Some(Outbound::Error { message, .. }) => assert_eq!(
            message,
            "Authentication failed: Authentication error: Invalid signature"
        ),
        _ => panic!("expected an error frame"),
    }
    assert_eq!(r.close, Closing::AfterDelay);
}

#[test]
fn authenticated_session_acknowledges_updates() {
    let (service, _) = directory_with_user_key(0);
    let mut s = session();
    let msg = build_auth_message(0, NOW, "nonce-0010".to_string()).unwrap();
    let r = s.handle(auth_frame(msg), 2_000, NOW);
    s.complete_authentication(service.verify_websocket_auth_at(&r.verify.unwrap(), NOW));
    let r = s.handle(Frame::Text(Ok(InboundMessage::ConnectionUpdate { connected: false })), 3_000, NOW);
    assert!(matches!(r.reply, Some(Outbound::ConnectionUpdateAck { connected: false })));
    let r = s.handle(Frame::Text(Ok(InboundMessage::NetworkUpdate)), 3_000, NOW);
    assert!(matches!(r.reply, Some(Outbound::NetworkUpdateAck)));
    let r = s.handle(Frame::Text(Ok(InboundMessage::Other)), 3_000, NOW);
    assert!(matches!(r.reply, Some(Outbound::Echo)));
    let r = s.handle(Frame::Binary, 3_000, NOW);
    assert!(matches!(r.reply, Some(Outbound::BinaryEcho)));
    let r = s.handle(Frame::Close, 3_000, NOW);
    assert!(matches!(r.reply, Some(Outbound::CloseEcho)));
    assert_eq!(r.close, Closing::Now);
    assert!(s.closed);
}

#[test]
fn protocol_error_closes_at_once() {
    let mut s = session();
    let r = s.handle(Frame::ProtocolError, 2_000, NOW);
    assert_eq!(r.close, Closing::Now);
    assert!(r.reply.is_none());
    assert!(s.closed);
}

#[test]
fn error_code_wire_names() {
    assert_eq!(ErrorCode::AuthRequired.as_str(), "auth_required");
    assert_eq!(ErrorCode::InvalidMessage.as_str(), "invalid_message");
    assert_eq!(ErrorCode::AuthFailed.as_str(), "auth_failed");
    assert_eq!(ErrorCode::UnknownKey.as_str(), "unknown_key");
    assert_eq!(ErrorCode::AuthTimeout.as_str(), "auth_timeout");
    assert_eq!(ErrorCode::Unauthorized.as_str(), "unauthorized");
}

#[test]
fn connection_info_reflects_the_session() {
    let s = session();
    let info = WebSocketConnectionInfo {
        session_id: s.id.clone(),
        user_id: s.user_id,
        client_ip: s.client_ip.clone(),
        created_at: s.connected_at,
        last_active: s.connected_at,
        authenticated: s.auth_state == AuthState::Authenticated,
    };
    assert_eq!(info.session_id, "session-1");
    assert_eq!(info.user_id, None);
    assert!(!info.authenticated);
}
