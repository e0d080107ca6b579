use ws_dashboard::config::Config;
use ws_dashboard::dev::test_keys::get_test_key;
use ws_dashboard::errors::DashboardError;
use ws_dashboard::models::user::{CreateUserDto, UpdateUserDto, User};
use ws_dashboard::numbers::{parse_bool, parse_i64, parse_u64};
use ws_dashboard::services::user::UserService;
use ws_dashboard::storage::memory::InMemoryUserStorage;

fn dto(email: &str, password: &str) -> CreateUserDto {
    CreateUserDto {
        email: email.to_string(),
        username: email.split('@').next().unwrap().to_string(),
        password: password.to_string(),
        wallet_address: None,
    }
}

fn vars(pairs: &[(&str, &str)]) -> Vec<(String, String)> {
    pairs.iter().map(|(k, v)| (k.to_string(), v.to_string())).collect()
}

#[test]
fn config_defaults() {
    let c = Config::from_vars(&vec![]);
    assert_eq!(c.server.port, 8080);
    assert_eq!(c.server.log_level, "info");
    assert_eq!(c.server.environment, "development");
    assert_eq!(c.database.url, None);
    assert_eq!(c.database.max_connections, 5);
    assert_eq!(c.database.connection_timeout, 30);
    assert!(c.database.seed_on_start);
    assert_eq!(c.redis.url, None);
    assert_eq!(c.websocket.heartbeat_interval, 30);
    assert_eq!(c.websocket.client_timeout, 120);
    assert_eq!(c.auth.jwt_secret, "default_jwt_secret");
    assert_eq!(c.auth.jwt_expiration, 3600);
    assert!(!c.features.enable_metrics);
}

#[test]
fn config_reads_values_and_falls_back() {
    let c = Config::from_vars(&vars(&[
        ("SERVER_PORT", "9000"),
        ("RUST_LOG", "debug"),
        ("DATABASE_URL", "postgres://db"),
        ("DATABASE_MAX_CONNECTIONS", "not a number"),
        ("DATABASE_SEED_ON_START", "false"),
        ("WS_CLIENT_TIMEOUT", "+45"),
        ("ENABLE_METRICS", "true"),
        ("JWT_SECRET", "s3cret"),
    ]));
    assert_eq!(c.server.port, 9000);
    assert_eq!(c.server.log_level, "debug");
    assert_eq!(c.database.url, Some("postgres://db".to_string()));
    assert_eq!(c.database.max_connections, 5);
    assert!(!c.database.seed_on_start);
    assert_eq!(c.websocket.client_timeout, 45);
    assert!(c.features.enable_metrics);
    assert_eq!(c.auth.jwt_secret, "s3cret");
    let c = Config::from_vars(&vars(&[("SERVER_PORT", "70000"), ("ENABLE_METRICS", "TRUE")]));
    assert_eq!(c.server.port, 8080);
    assert!(!c.features.enable_metrics);
}

#[test]
fn decimal_parsing_matches_std() {
    for s in ["0", "42", "+7", "18446744073709551615", "18446744073709551616", "", "+", "-1", "1a", " 1"] {
        assert_eq!(parse_u64(s), s.parse::<u64>().ok(), "{}", s);
    }
    for s in ["0", "-0", "-9223372036854775808", "9223372036854775807", "9223372036854775808", "-9223372036854775809", "+12", "-", "--1", "12-"] {
        assert_eq!(parse_i64(s), s.parse::<i64>().ok(), "{}", s);
    }
    for s in ["true", "false", "True", "", "truee"] {
        assert_eq!(parse_bool(s), s.parse::<bool>().ok(), "{}", s);
    }
}

#[test]
fn register_login_and_token() {
    let mut service = UserService::new(InMemoryUserStorage::new(), "secret".to_string(), 3600);
    let user = service.register_user(dto("carol@example.com", "hunter22")).unwrap();
    assert_eq!(user.id, 1);
    assert_eq!(
        service.register_user(dto("carol@example.com", "x")).unwrap_err(),
        DashboardError::Validation("User with email carol@example.com already exists".to_string())
    );
    let creds = service.user_storage().get_credentials(1).unwrap().unwrap();
    assert!(creds.password_hash.starts_with("$argon2"));

    let wrong = service.login("carol@example.com", "nope", "1.2.3.4", "ua").unwrap_err();
    assert_eq!(wrong, DashboardError::Authentication("Invalid email or password".to_string()));
    let missing = service.login("nobody@example.com", "hunter22", "1.2.3.4", "ua").unwrap_err();
    assert_eq!(missing, DashboardError::Authentication("Invalid email or password".to_string()));

    let response = service.login("carol@example.com", "hunter22", "1.2.3.4", "ua").unwrap();
    assert_eq!(response.user.id, 1);
    assert_eq!(service.user_storage().session_count(), 1);
    assert_eq!(service.verify_token(&response.token), Ok(1));
    assert_eq!(
        service.verify_token("not-a-token"),
        Err(DashboardError::Authentication("Invalid token".to_string()))
    );
    let other = UserService::new(InMemoryUserStorage::new(), "other".to_string(), 3600);
    assert!(other.verify_token(&response.token).is_err());
}

#[test]
fn token_subjects() {
    assert_eq!(UserService::user_id_from_subject(Some("42".to_string())), Ok(42));
    assert_eq!(UserService::user_id_from_subject(Some("-3".to_string())), Ok(-3));
    let bad = Err(DashboardError::Authentication("Invalid user ID in token".to_string()));
    assert_eq!(UserService::user_id_from_subject(Some("4x".to_string())), bad);
    assert_eq!(UserService::user_id_from_subject(None), bad);
}

#[test]
fn profile_updates_and_deletion() {
    let mut service = UserService::new(InMemoryUserStorage::new(), "s".to_string(), 60);
    let a = service.register_user(dto("a@example.com", "pw")).unwrap();
    let b = service.register_user(dto("b@example.com", "pw")).unwrap();
    let key = get_test_key(0).unwrap().public_key;
    service.add_public_key(a.id, &key).unwrap();
    assert_eq!(
        service.add_public_key(a.id, "xyz"),
        Err(DashboardError::Validation(
            "Invalid public key format. Expected a 64-character hex string.".to_string()
        ))
    );
    assert_eq!(
        service.add_public_key(99, &key),
        Err(DashboardError::NotFound("User with ID 99 not found".to_string()))
    );

    let taken = UpdateUserDto { username: None, email: Some("b@example.com".to_string()), wallet_address: None };
    assert_eq!(
        service.update_user(a.id, taken).unwrap_err(),
        DashboardError::Validation("Email b@example.com is already in use".to_string())
    );
    let change = UpdateUserDto {
        username: Some("alice".to_string()),
        email: Some("alice@example.com".to_string()),
        wallet_address: Some("0xabc".to_string()),
    };
    let u: User = service.update_user(a.id, change).unwrap();
    assert_eq!((u.username.as_str(), u.email.as_str()), ("alice", "alice@example.com"));
    assert_eq!(u.wallet_address, Some("0xabc".to_string()));
    assert!(service.user_storage().find_user_by_email("a@example.com").unwrap().is_none());

    service.login("b@example.com", "pw", "ip", "ua").unwrap();
    assert_eq!(service.get_public_keys(a.id), Ok(vec![key.clone()]));
    assert_eq!(service.delete_user(a.id), Ok(true));
    assert_eq!(
        service.get_user(a.id).unwrap_err(),
        DashboardError::NotFound("User with ID 1 not found".to_string())
    );
    assert!(service.find_user_by_public_key(&key).unwrap().is_none());
    assert!(service.user_storage().get_credentials(a.id).unwrap().is_none());
    assert_eq!(service.get_user(b.id).unwrap().email, "b@example.com");
    assert_eq!(service.user_storage().session_count(), 1);
    assert_eq!(service.revoke_public_key(b.id, &key), Ok(false));
    assert!(service.delete_user(a.id).is_err());
}

#[test]
fn directory_sessions_and_credentials() {
    let mut storage = InMemoryUserStorage::new();
    storage.create_user(dto("s@example.com", "pw")).unwrap();
    storage.store_credentials(1, "h1", "s1").unwrap();
    storage.store_credentials(1, "h2", "s2").unwrap();
    let c = storage.get_credentials(1).unwrap().unwrap();
    assert_eq!((c.password_hash.as_str(), c.salt.as_str()), ("h2", "s2"));
    assert!(storage.get_credentials(2).unwrap().is_none());

    let s = storage.create_session("sess-a".to_string(), 1, "ip", "ua", 60).unwrap();
    assert_eq!(s.expires_at - s.created_at, 60);
    storage.create_session("sess-b".to_string(), 1, "ip", "ua", 60).unwrap();
    storage.create_session("sess-c".to_string(), 2, "ip", "ua", 60).unwrap();
    assert_eq!(storage.find_session_by_id("sess-b").unwrap().unwrap().user_id, 1);
    assert_eq!(storage.delete_session("sess-b"), Ok(true));
    assert_eq!(storage.delete_session("sess-b"), Ok(false));
    assert!(storage.find_session_by_id("sess-b").unwrap().is_none());
    assert_eq!(storage.delete_user_sessions(1), Ok(1));
    assert_eq!(storage.session_count(), 1);

    storage.update_last_active(1).unwrap();
    assert_eq!(
        storage.update_last_active(5),
        Err(DashboardError::NotFound("User with ID 5 not found".to_string()))
    );
    assert_eq!(storage.delete_user(5), Ok(false));
    assert!(storage.update_public_key_last_used(1, "k").is_ok());
}

#[test]
fn seeded_users_keep_their_ids() {
    let mut storage = InMemoryUserStorage::new();
    let mut u = User::new("seed@example.com".to_string(), "seed".to_string(), None);
    u.id = 7;
    assert!(storage.seed_user(u.clone()).is_ok());
    assert!(storage.seed_user(u).is_err());
    let next = storage.create_user(dto("new@example.com", "pw")).unwrap();
    assert_eq!(next.id, 8);
}
