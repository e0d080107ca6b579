use ed25519_dalek::{Signer, SigningKey};
use ws_dashboard::dev::test_keys::{
    build_auth_message, get_public_key_to_user_id_map, get_test_key, get_test_key_for_user,
    get_test_keys, register_test_keys_with_users, sign_test_message,
};
use ws_dashboard::errors::DashboardError;
use ws_dashboard::models::user::CreateUserDto;
use ws_dashboard::models::websocket::WebSocketAuthMessage;
use ws_dashboard::services::signature::SignatureService;
use ws_dashboard::storage::memory::InMemoryUserStorage;

const NOW: i64 = 1_700_000_000;

fn dto(email: &str) -> CreateUserDto {
    CreateUserDto {
        email: email.to_string(),
        username: email.to_string(),
        password: "pw".to_string(),
        wallet_address: None,
    }
}

fn message(public_key: &str, timestamp: i64, nonce: &str, signature: &str) -> WebSocketAuthMessage {
    WebSocketAuthMessage::new(
        public_key.to_string(),
        timestamp,
        nonce.to_string(),
        signature.to_string(),
    )
}

#[test]
fn signed_message_is_timestamp_colon_nonce() {
    let m = message("ab", 1_700_000_123, "xyz12345", "");
    assert_eq!(m.get_signed_message(), "1700000123:xyz12345");
    let m = message("ab", -42, "n", "");
    assert_eq!(m.get_signed_message(), "-42:n");
}

#[test]
fn shape_rules_in_order() {
    let key = "a".repeat(64);
    let sig = "b".repeat(128);
    assert_eq!(message(&key, NOW, "12345678", &sig).validate_at(NOW), Ok(()));
    assert_eq!(message(&"A".repeat(128), NOW, "12345678", &sig).validate_at(NOW), Ok(()));
    assert_eq!(
        message(&"a".repeat(63), NOW, "12345678", &sig).validate_at(NOW),
        Err("Invalid public key length".to_string())
    );
    assert_eq!(
        message(&"g".repeat(64), NOW, "12345678", &sig).validate_at(NOW),
        Err("Public key must be a hexadecimal string".to_string())
    );
    assert_eq!(
        message(&key, NOW + 61, "12345678", &sig).validate_at(NOW),
        Err("Timestamp is in the future".to_string())
    );
    assert_eq!(message(&key, NOW + 60, "12345678", &sig).validate_at(NOW), Ok(()));
    assert_eq!(
        message(&key, NOW - 301, "12345678", &sig).validate_at(NOW),
        Err("Authentication message has expired".to_string())
    );
    assert_eq!(message(&key, NOW - 300, "12345678", &sig).validate_at(NOW), Ok(()));
    assert_eq!(
        message(&key, NOW, "1234567", &sig).validate_at(NOW),
        Err("Invalid nonce length".to_string())
    );
    assert_eq!(
        message(&key, NOW, &"n".repeat(65), &sig).validate_at(NOW),
        Err("Invalid nonce length".to_string())
    );
    assert_eq!(message(&key, NOW, &"n".repeat(64), &sig).validate_at(NOW), Ok(()));
    assert_eq!(
        message(&key, NOW, "12345678", &"b".repeat(127)).validate_at(NOW),
        Err("Invalid signature length".to_string())
    );
    assert_eq!(
        message(&key, NOW, "12345678", &"z".repeat(128)).validate_at(NOW),
        Err("Signature must be a hexadecimal string".to_string())
    );
    assert_eq!(
        message(&key, i64::MIN, "12345678", &sig).validate_at(NOW),
        Err("Authentication message has expired".to_string())
    );
}

#[test]
fn validate_uses_the_wall_clock() {
    let now = chrono::Utc::now().timestamp();
    let m = build_auth_message(2, now, "clock-nonce".to_string()).unwrap();
    assert_eq!(m.validate(), Ok(()));
    let old = build_auth_message(2, now - 3_600, "clock-nonce".to_string()).unwrap();
    assert_eq!(old.validate(), Err("Authentication message has expired".to_string()));
}

#[test]
fn independently_signed_message_verifies() {
    let signing = SigningKey::from_bytes(&[7u8; 32]);
    let public_hex = hex::encode(signing.verifying_key().to_bytes());
    let payload = format!("{}:{}", NOW, "independent-nonce");
    let sig_hex = hex::encode(signing.sign(payload.as_bytes()).to_bytes());

    let service = SignatureService::new(InMemoryUserStorage::new());
    assert_eq!(service.verify_signature(&public_hex, &payload, &sig_hex), Ok(true));
    assert_eq!(service.verify_signature(&public_hex, "other text", &sig_hex), Ok(false));
    let upper = public_hex.to_uppercase();
    assert_eq!(service.verify_signature(&upper, &payload, &sig_hex), Ok(true));
}

#[test]
fn malformed_keys_and_signatures_are_validation_errors() {
    let service = SignatureService::new(InMemoryUserStorage::new());
    let key = get_test_key(0).unwrap().public_key;
    let sig = "00".repeat(64);
    assert_eq!(
        service.verify_signature("abc", "m", &sig),
        Err(DashboardError::Validation("Invalid public key format".to_string()))
    );
    assert_eq!(
        service.verify_signature(&"ab".repeat(64), "m", &sig),
        Err(DashboardError::Validation("Public key must be 32 bytes, got 64 bytes".to_string()))
    );
    assert_eq!(
        service.verify_signature(&"0".repeat(128), "1700000000:abcdefgh", &"0".repeat(128)),
        Err(DashboardError::Validation("Public key must be 32 bytes, got 64 bytes".to_string()))
    );
    assert_eq!(
        service.verify_signature(&key, "m", "xyz"),
        Err(DashboardError::Validation("Invalid signature format".to_string()))
    );
    assert_eq!(
        service.verify_signature(&key, "m", "00"),
        Err(DashboardError::Validation("Signature must be 64 bytes, got 1 bytes".to_string()))
    );
    // y = 2 does not decode to a curve point.
    let not_a_point = format!("02{}", "00".repeat(31));
    assert_eq!(
        service.verify_signature(&not_a_point, "m", &sig),
        Err(DashboardError::Validation("Invalid public key".to_string()))
    );
    // Key checks come before the signature is decoded.
    assert_eq!(
        service.verify_signature(&not_a_point, "m", "xyz"),
        Err(DashboardError::Validation("Invalid public key".to_string()))
    );
    assert_eq!(service.verify_signature(&key, "m", &sig), Ok(false));
}

#[test]
fn tampered_signature_is_rejected() {
    let mut storage = InMemoryUserStorage::new();
    let user = storage.create_user(dto("a@example.com")).unwrap();
    let key = get_test_key(0).unwrap();
    storage.store_public_key(user.id, &key.public_key).unwrap();
    let service = SignatureService::new(storage);
    let mut m = build_auth_message(0, NOW, "nonce-tamper".to_string()).unwrap();
    m.nonce = "nonce-tampered".to_string();
    assert_eq!(
        service.verify_websocket_auth_at(&m, NOW),
        Err(DashboardError::Authentication("Invalid signature".to_string()))
    );
}

#[test]
fn skewed_timestamps_are_shape_errors() {
    let service = SignatureService::new(InMemoryUserStorage::new());
    let future = build_auth_message(0, NOW + 61, "nonce-future".to_string()).unwrap();
    assert_eq!(
        service.verify_websocket_auth_at(&future, NOW),
        Err(DashboardError::Validation("Timestamp is in the future".to_string()))
    );
    let past = build_auth_message(0, NOW - 301, "nonce-past".to_string()).unwrap();
    assert_eq!(
        service.verify_websocket_auth_at(&past, NOW),
        Err(DashboardError::Validation("Authentication message has expired".to_string()))
    );
    let wide_key = WebSocketAuthMessage::new("ab".repeat(64), NOW, "nonce-wide".to_string(), "00".repeat(64));
    assert_eq!(
        service.verify_websocket_auth_at(&wide_key, NOW),
        Err(DashboardError::Validation("Public key must be 32 bytes, got 64 bytes".to_string()))
    );
}

#[test]
fn registering_a_key_is_idempotent() {
    let mut storage = InMemoryUserStorage::new();
    let alice = storage.create_user(dto("alice@example.com")).unwrap();
    let bob = storage.create_user(dto("bob@example.com")).unwrap();
    let mut service = SignatureService::new(storage);
    let key = get_test_key(4).unwrap().public_key;

    assert_eq!(service.register_public_key(alice.id, &key), Ok(()));
    assert_eq!(service.register_public_key(alice.id, &key), Ok(()));
    assert_eq!(service.get_user_public_keys(alice.id), Ok(vec![key.clone()]));
    assert_eq!(
        service.register_public_key(bob.id, &key),
        Err(DashboardError::Validation("Public key already associated with another user".to_string()))
    );
    assert_eq!(service.get_user_public_keys(bob.id), Ok(vec![]));
    assert_eq!(
        service.register_public_key(alice.id, "abcd"),
        Err(DashboardError::Validation("Invalid public key format".to_string()))
    );
}

#[test]
fn revoking_keys() {
    let mut storage = InMemoryUserStorage::new();
    let alice = storage.create_user(dto("alice@example.com")).unwrap();
    let bob = storage.create_user(dto("bob@example.com")).unwrap();
    let k1 = get_test_key(1).unwrap().public_key;
    let k2 = get_test_key(2).unwrap().public_key;
    storage.store_public_key(alice.id, &k1).unwrap();
    storage.store_public_key(alice.id, &k2).unwrap();
    let mut service = SignatureService::new(storage);
    assert_eq!(service.get_user_public_keys(alice.id), Ok(vec![k1.clone(), k2.clone()]));
    assert_eq!(
        service.revoke_public_key(bob.id, &k1),
        Err(DashboardError::Validation("Public key belongs to another user".to_string()))
    );
    assert_eq!(service.revoke_public_key(alice.id, &k1), Ok(true));
    assert_eq!(service.revoke_public_key(alice.id, &k1), Ok(false));
    assert_eq!(service.get_user_public_keys(alice.id), Ok(vec![k2.clone()]));
    assert!(service.user_storage().find_user_by_public_key(&k1).unwrap().is_none());
    let found = service.user_storage().find_user_by_public_key(&k2).unwrap().unwrap();
    assert_eq!(found.id, alice.id);
}

#[test]
fn test_keys_are_deterministic() {
    let keys = get_test_keys();
    assert_eq!(keys.len(), 10);
    for (i, k) in keys.iter().enumerate() {
        assert_eq!(k.index, i);
        assert_eq!(k.user_id, i as i64 + 1);
        assert_eq!(k.username, format!("test_user_{}", i + 1));
        let mut seed = *b"dashboard_test_key_seed_123456\0\0";
        seed[31] = i as u8;
        assert_eq!(k.private_key, hex::encode(seed));
        let expected = SigningKey::from_bytes(&seed).verifying_key().to_bytes();
        assert_eq!(k.public_key, hex::encode(expected));
    }
    assert!(get_test_key(10).is_none());
    assert_eq!(get_test_key_for_user(3).unwrap().index, 2);
    assert!(get_test_key_for_user(0).is_none());
    assert!(get_test_key_for_user(11).is_none());
    let map = get_public_key_to_user_id_map();
    assert_eq!(map.len(), 10);
    assert_eq!(map.get(&keys[5].public_key), Some(&6));
}

#[test]
fn test_signatures_match_the_outside_signer() {
    let key = get_test_key(0).unwrap();
    let sig = sign_test_message(&key.private_key, "hello").unwrap();
    let secret: [u8; 32] = hex::decode(&key.private_key).unwrap().try_into().unwrap();
    let expected = SigningKey::from_bytes(&secret).sign(b"hello").to_bytes();
    assert_eq!(sig, hex::encode(expected));
    assert_eq!(sign_test_message("zz", "hello"), Err("Invalid private key format".to_string()));
    assert_eq!(sign_test_message("abcd", "hello"), Err("Invalid private key length".to_string()));
    assert_eq!(build_auth_message(10, NOW, "n".to_string()).unwrap_err(), "Test key not found");
}

#[test]
fn test_keys_bind_to_existing_users() {
    let mut storage = InMemoryUserStorage::new();
    for i in 0..3 {
        storage.create_user(dto(&format!("user{}@example.com", i))).unwrap();
    }
    assert_eq!(register_test_keys_with_users(&mut storage), Ok(()));
    assert_eq!(register_test_keys_with_users(&mut storage), Ok(()));
    for i in 0..3 {
        let key = get_test_key(i).unwrap();
        let user = storage.find_user_by_public_key(&key.public_key).unwrap().unwrap();
        assert_eq!(user.id, key.user_id);
        assert_eq!(storage.get_public_keys_for_user(key.user_id), Ok(vec![key.public_key.clone()]));
    }
    let key = get_test_key(5).unwrap();
    assert!(storage.find_user_by_public_key(&key.public_key).unwrap().is_none());
}

#[test]
fn directory_users() {
    let mut storage = InMemoryUserStorage::new();
    let a = storage.create_user(dto("a@example.com")).unwrap();
    let b = storage.create_user(dto("b@example.com")).unwrap();
    assert_eq!((a.id, b.id), (1, 2));
    assert_eq!(
        storage.create_user(dto("a@example.com")).unwrap_err(),
        DashboardError::Validation("Email a@example.com is already in use".to_string())
    );
    assert_eq!(storage.find_user_by_id(2).unwrap().unwrap().email, "b@example.com");
    assert!(storage.find_user_by_id(3).unwrap().is_none());
    assert_eq!(storage.find_user_by_email("a@example.com").unwrap().unwrap().id, 1);
    assert!(storage.find_user_by_email("c@example.com").unwrap().is_none());
}

#[test]
fn error_texts_and_statuses() {
    assert_eq!(DashboardError::validation("bad").to_text(), "Validation error: bad");
    assert_eq!(DashboardError::not_found("x").status_code(), 404);
    assert_eq!(DashboardError::authentication("x").status_code(), 401);
    assert_eq!(DashboardError::authorization("x").status_code(), 403);
    assert_eq!(DashboardError::bad_request("x").status_code(), 400);
    assert_eq!(DashboardError::rate_limit("x").to_text(), "Rate limit exceeded: x");
    assert_eq!(DashboardError::rate_limit("x").status_code(), 429);
    assert_eq!(DashboardError::database("x").status_code(), 500);
    assert_eq!(DashboardError::websocket("x").to_text(), "WebSocket error: x");
    assert_eq!(DashboardError::internal_server("x").status_code(), 500);
}
