//! Server configuration, read from named text values with defaults.

use vstd::prelude::*;
use crate::numbers::{parse_bool, parse_u64, unsigned_text};

verus! {

#[derive(Debug, Clone)]
pub struct Config {
    pub server: ServerConfig,
    pub database: DatabaseConfig,
    pub redis: RedisConfig,
    pub websocket: WebSocketConfig,
    pub auth: AuthConfig,
    pub features: FeatureFlags,
}

#[derive(Debug, Clone)]
pub struct ServerConfig {
    pub port: u16,
    pub log_level: String,
    pub environment: String,
}

#[derive(Debug, Clone)]
pub struct DatabaseConfig {
    pub url: Option<String>,
    pub max_connections: u32,
    pub connection_timeout: u64,
    pub seed_on_start: bool,
}

#[derive(Debug, Clone)]
pub struct RedisConfig {
    pub url: Option<String>,
}

#[derive(Debug, Clone)]
pub struct WebSocketConfig {
    /// Seconds between liveness probes
    pub heartbeat_interval: u64,
    /// Seconds of silence after which a client is dropped
    pub client_timeout: u64,
}

#[derive(Debug, Clone)]
pub struct AuthConfig {
    pub jwt_secret: String,
    pub jwt_expiration: u64,
}

#[derive(Debug, Clone)]
pub struct FeatureFlags {
    pub enable_metrics: bool,
}

/// The value set for `name`: the first pair that names it.
pub open spec fn value_of(vars: Seq<(String, String)>, name: Seq<char>) -> Option<Seq<char>>
    decreases vars.len(),
{
    if vars.len() == 0 {
        None
    } else if vars[0].0@ == name {
        Some(vars[0].1@)
    } else {
        value_of(vars.drop_first(), name)
    }
}

/// An unsigned number no greater than `max`, or the default.
pub open spec fn number_or(v: Option<Seq<char>>, max: nat, default: nat) -> nat {
    match v {
        Some(s) => match unsigned_text(s) {
            Some(n) => if n <= max {
                n
            } else {
                default
            },
            None => default,
        },
        None => default,
    }
}

/// `true` or `false`, or the default.
pub open spec fn flag_or(v: Option<Seq<char>>, default: bool) -> bool {
    match v {
        Some(s) => if s == "true"@ {
            true
        } else if s == "false"@ {
            false
        } else {
            default
        },
        None => default,
    }
}

/// A text, or the default.
pub open spec fn text_or(v: Option<Seq<char>>, default: Seq<char>) -> Seq<char> {
    match v {
        Some(s) => s,
        None => default,
    }
}

fn lookup(vars: &Vec<(String, String)>, name: &str) -> (r: Option<String>)
    ensures
        match value_of(vars@, name@) {
            Some(v) => r matches Some(s) && s@ == v,
            None => r is None,
        },
{
    let key = name.to_owned();
    let mut i: usize = 0;
    assert(vars@.skip(0) =~= vars@);
    while i < vars.len()
        invariant
            key@ == name@,
            i <= vars@.len(),
            value_of(vars@, name@) == value_of(vars@.skip(i as int), name@),
        decreases vars@.len() - i,
    {
        let ghost rest = vars@.skip(i as int);
        assert(rest.drop_first() =~= vars@.skip(i + 1));
        assert(rest[0] == vars@[i as int]);
        if vars[i].0 == key {
            return Some(vars[i].1.clone());
        }
        i = i + 1;
    }
    None
}

fn number_from(v: &Option<String>, max: u64, default: u64) -> (r: u64)
    requires
        default <= max,
    ensures
        r == number_or(
            match v {
                Some(s) => Some(s@),
                None => None,
            },
            max as nat,
            default as nat,
        ),
{
    match v {
        Some(s) => match parse_u64(s.as_str()) {
            Some(n) => if n <= max {
                n
            } else {
                default
            },
            None => default,
        },
        None => default,
    }
}

fn flag_from(v: &Option<String>, default: bool) -> (r: bool)
    ensures
        r == flag_or(
            match v {
                Some(s) => Some(s@),
                None => None,
            },
            default,
        ),
{
    match v {
        Some(s) => match parse_bool(s.as_str()) {
            Some(b) => b,
            None => default,
        },
        None => default,
    }
}

fn text_from(v: Option<String>, default: &str) -> (r: String)
    ensures
        r@ == text_or(
            match v {
                Some(s) => Some(s@),
                None => None,
            },
            default@,
        ),
{
    match v {
        Some(s) => s,
        None => default.to_owned(),
    }
}

impl Config {
    /// The configuration that the named values give, each unset or
    /// unreadable value taking its default.
    pub fn from_vars(vars: &Vec<(String, String)>) -> (r: Self)
        ensures
            r.server.port == number_or(value_of(vars@, "SERVER_PORT"@), u16::MAX as nat, 8080),
            r.server.log_level@ == text_or(value_of(vars@, "RUST_LOG"@), "info"@),
            r.server.environment@ == text_or(value_of(vars@, "ENVIRONMENT"@), "development"@),
            match value_of(vars@, "DATABASE_URL"@) {
                Some(u) => r.database.url matches Some(s) && s@ == u,
                None => r.database.url is None,
            },
            r.database.max_connections == number_or(
                value_of(vars@, "DATABASE_MAX_CONNECTIONS"@),
                u32::MAX as nat,
                5,
            ),
            r.database.connection_timeout == number_or(
                value_of(vars@, "DATABASE_CONNECTION_TIMEOUT"@),
                u64::MAX as nat,
                30,
            ),
            r.database.seed_on_start == flag_or(value_of(vars@, "DATABASE_SEED_ON_START"@), true),
            match value_of(vars@, "REDIS_URL"@) {
                Some(u) => r.redis.url matches Some(s) && s@ == u,
                None => r.redis.url is None,
            },
            r.websocket.heartbeat_interval == number_or(
                value_of(vars@, "WS_HEARTBEAT_INTERVAL"@),
                u64::MAX as nat,
                30,
            ),
            r.websocket.client_timeout == number_or(
                value_of(vars@, "WS_CLIENT_TIMEOUT"@),
                u64::MAX as nat,
                120,
            ),
            r.auth.jwt_secret@ == text_or(value_of(vars@, "JWT_SECRET"@), "default_jwt_secret"@),
            r.auth.jwt_expiration == number_or(
                value_of(vars@, "JWT_EXPIRATION"@),
                u64::MAX as nat,
                3600,
            ),
            r.features.enable_metrics == flag_or(value_of(vars@, "ENABLE_METRICS"@), false),
    {
        let port = number_from(&lookup(vars, "SERVER_PORT"), 65535, 8080) as u16;
        let server = ServerConfig {
            port,
            log_level: text_from(lookup(vars, "RUST_LOG"), "info"),
            environment: text_from(lookup(vars, "ENVIRONMENT"), "development"),
        };
        let max_connections = number_from(&lookup(vars, "DATABASE_MAX_CONNECTIONS"), 4294967295, 5)
            as u32;
        let database = DatabaseConfig {
            url: lookup(vars, "DATABASE_URL"),
            max_connections,
            connection_timeout: number_from(
                &lookup(vars, "DATABASE_CONNECTION_TIMEOUT"),
                u64::MAX,
                30,
            ),
            seed_on_start: flag_from(&lookup(vars, "DATABASE_SEED_ON_START"), true),
        };
        let redis = RedisConfig { url: lookup(vars, "REDIS_URL") };
        let websocket = WebSocketConfig {
            heartbeat_interval: number_from(&lookup(vars, "WS_HEARTBEAT_INTERVAL"), u64::MAX, 30),
            client_timeout: number_from(&lookup(vars, "WS_CLIENT_TIMEOUT"), u64::MAX, 120),
        };
        let auth = AuthConfig {
            jwt_secret: text_from(lookup(vars, "JWT_SECRET"), "default_jwt_secret"),
            jwt_expiration: number_from(&lookup(vars, "JWT_EXPIRATION"), u64::MAX, 3600),
        };
        let features = FeatureFlags {
            enable_metrics: flag_from(&lookup(vars, "ENABLE_METRICS"), false),
        };
        Config { server, database, redis, websocket, auth, features }
    }
}

} // verus!
