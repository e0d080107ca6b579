//! The per-connection authentication state machine.
//!
//! A session value owns its state; the caller runs the socket and the timers,
//! hands each frame or timer firing to the session, and performs the
//! returned `Reaction`: the frame to send, the verification to start, and
//! whether to close.

use vstd::prelude::*;
use crate::errors::{DashboardError, DashboardResult};
use crate::models::websocket::WebSocketAuthMessage;

verus! {

/// Tracks the authentication state of a WebSocket connection.
#[derive(Debug, Clone, Copy, PartialEq, Eq, Structural)]
pub enum AuthState {
    /// No authentication attempt yet
    NotAuthenticated,
    /// A verification is in flight
    Authenticating,
    /// Authenticated; terminal
    Authenticated,
    /// Authentication failed; terminal
    Failed,
}

/// The error codes sent in `error` frames.
#[derive(Debug, Clone, Copy, PartialEq, Eq, Structural)]
pub enum ErrorCode {
    AuthRequired,
    InvalidMessage,
    AuthFailed,
    UnknownKey,
    AuthTimeout,
    Unauthorized,
}

impl ErrorCode {
    /// The wire name of the code.
    pub fn as_str(&self) -> &'static str {
        match self {
            ErrorCode::AuthRequired => "auth_required",
            ErrorCode::InvalidMessage => "invalid_message",
            ErrorCode::AuthFailed => "auth_failed",
            ErrorCode::UnknownKey => "unknown_key",
            ErrorCode::AuthTimeout => "auth_timeout",
            ErrorCode::Unauthorized => "unauthorized",
        }
    }
}

/// What the session reads of a well-formed inbound JSON message.
#[derive(Debug, Clone)]
pub enum InboundMessage {
    /// An authentication attempt
    Auth(WebSocketAuthMessage),
    /// An application heartbeat
    Heartbeat,
    /// A connection status update
    ConnectionUpdate { connected: bool },
    /// A network status update; its status and score stay with the caller
    NetworkUpdate,
    /// Any other well-formed message, echoed back once authenticated
    Other,
}

/// One inbound transport event.
#[derive(Debug)]
pub enum Frame {
    Ping,
    Pong,
    /// A text frame: the parsed message, or the parser's error text
    Text(Result<InboundMessage, String>),
    Binary,
    Close,
    Continuation,
    Nop,
    /// The transport could not decode a frame
    ProtocolError,
}

/// One outbound frame.
#[derive(Debug, Clone)]
pub enum Outbound {
    /// `connection_established`, carrying the session id
    ConnectionEstablished,
    AuthSuccess { user_id: i64 },
    Error { code: ErrorCode, message: String },
    HeartbeatAck { timestamp: i64 },
    ConnectionUpdateAck { connected: bool },
    /// `network_update_ack`, carrying the status and score received
    NetworkUpdateAck,
    /// Informational reply to an authentication attempt after success
    AlreadyAuthenticated,
    /// The received text frame, sent back as it came
    Echo,
    /// The received binary frame, sent back as it came
    BinaryEcho,
    Pong,
    Ping,
    /// The received close frame, sent back
    CloseEcho,
}

/// Whether and when the connection closes after a reaction.
#[derive(Debug, Clone, Copy, PartialEq, Eq, Structural)]
pub enum Closing {
    /// Stays open
    Open,
    /// Closes once the session's `close_delay` has passed
    AfterDelay,
    /// Closes at once
    Now,
}

/// What the caller must do after handing an event to the session.
#[derive(Debug, Clone)]
pub struct Reaction {
    /// Frame to send, if any
    pub reply: Option<Outbound>,
    /// Authentication message to verify asynchronously, if any; its result
    /// goes back through `complete_authentication`
    pub verify: Option<WebSocketAuthMessage>,
    pub close: Closing,
}

/// A reaction that does nothing.
pub open spec fn is_idle(r: Reaction) -> bool {
    r.reply is None && r.verify is None && r.close == Closing::Open
}

/// A reaction that sends one frame and starts nothing.
pub open spec fn sends(r: Reaction, o: Outbound, close: Closing) -> bool {
    r.reply == Some(o) && r.verify is None && r.close == close
}

/// A reaction that sends one `error` frame with the given code and text.
pub open spec fn sends_error(r: Reaction, code: ErrorCode, message: Seq<char>, close: Closing) -> bool {
    &&& r.reply matches Some(Outbound::Error { code: c, message: m }) && c == code && m@ == message
    &&& r.verify is None
    &&& r.close == close
}

/// Authentication only moves forward: out of `NotAuthenticated`, through
/// `Authenticating`, to one of the two terminal states.
pub open spec fn advances(from: AuthState, to: AuthState) -> bool {
    match from {
        AuthState::NotAuthenticated => true,
        AuthState::Authenticating => to != AuthState::NotAuthenticated,
        AuthState::Authenticated => to == AuthState::Authenticated,
        AuthState::Failed => to == AuthState::Failed,
    }
}

/// Milliseconds from `since` to `now`, zero when `now` is earlier.
pub open spec fn elapsed(now: u64, since: u64) -> int {
    if now > since { now - since } else { 0 }
}

/// Text of the `auth_failed` frame for a verification error.
pub open spec fn auth_failed_text(e: DashboardError) -> Seq<char> {
    "Authentication failed: "@ + e.text()
}

/// Text of the `invalid_message` frame for a parser error.
pub open spec fn parse_failed_text(e: Seq<char>) -> Seq<char> {
    "Failed to parse message: "@ + e
}

/// WebSocket session data.
pub struct WebSocketSession {
    /// Unique session id
    pub id: String,
    /// User id once authenticated
    pub user_id: Option<i64>,
    /// Client IP address, informational only
    pub client_ip: String,
    /// Last ping, pong or heartbeat, in milliseconds on the caller's monotonic clock
    pub last_heartbeat: u64,
    pub auth_state: AuthState,
    /// When the connection was accepted, in seconds since the Unix epoch
    pub connected_at: i64,
    /// Public key that authenticated this session
    pub public_key: Option<String>,
    /// Public key of the verification in flight
    pub pending_key: Option<String>,
    /// Milliseconds between liveness probes
    pub heartbeat_interval: u64,
    /// Milliseconds of silence after which the client is dropped
    pub client_timeout: u64,
    /// Milliseconds the client has to authenticate
    pub auth_timeout: u64,
    /// Milliseconds between a failure notice and the forced close
    pub close_delay: u64,
    /// The connection has been closed; nothing changes afterwards
    pub closed: bool,
}

impl WebSocketSession {
    /// The session's invariant: a user and a key exactly when authenticated,
    /// a pending key exactly while authenticating.
    pub open spec fn wf(&self) -> bool {
        &&& (self.user_id is Some <==> self.auth_state == AuthState::Authenticated)
        &&& (self.public_key is Some <==> self.auth_state == AuthState::Authenticated)
        &&& (self.pending_key is Some <==> self.auth_state == AuthState::Authenticating)
    }

    /// What every handler keeps: the invariant, forward-only authentication,
    /// a user id that never changes once set, and no change after close.
    pub open spec fn step_ok(old: &Self, new: &Self) -> bool {
        &&& new.wf()
        &&& advances(old.auth_state, new.auth_state)
        &&& (old.user_id is Some ==> new.user_id == old.user_id)
        &&& (old.closed ==> new == old)
        &&& new.id == old.id
    }

    /// A session for a freshly accepted connection.
    pub fn new(
        id: String,
        client_ip: String,
        now: u64,
        connected_at: i64,
        heartbeat_interval: u64,
        client_timeout: u64,
        auth_timeout: u64,
        close_delay: u64,
    ) -> (r: Self)
        ensures
            r.wf(),
            r.id == id,
            r.client_ip == client_ip,
            r.last_heartbeat == now,
            r.connected_at == connected_at,
            r.auth_state == AuthState::NotAuthenticated,
            r.user_id is None,
            r.public_key is None,
            r.heartbeat_interval == heartbeat_interval,
            r.client_timeout == client_timeout,
            r.auth_timeout == auth_timeout,
            r.close_delay == close_delay,
            !r.closed,
    {
        WebSocketSession {
            id,
            user_id: None,
            client_ip,
            last_heartbeat: now,
            auth_state: AuthState::NotAuthenticated,
            connected_at,
            public_key: None,
            pending_key: None,
            heartbeat_interval,
            client_timeout,
            auth_timeout,
            close_delay,
            closed: false,
        }
    }

    /// The greeting sent once the connection is accepted.
    pub fn started(&self) -> (r: Reaction)
        ensures
            sends(r, Outbound::ConnectionEstablished, Closing::Open),
    {
        Reaction { reply: Some(Outbound::ConnectionEstablished), verify: None, close: Closing::Open }
    }

    fn idle() -> (r: Reaction)
        ensures
            is_idle(r),
    {
        Reaction { reply: None, verify: None, close: Closing::Open }
    }

    fn error(code: ErrorCode, message: String, close: Closing) -> (r: Reaction)
        ensures
            sends_error(r, code, message@, close),
    {
        Reaction { reply: Some(Outbound::Error { code, message }), verify: None, close }
    }

    /// Handle one inbound transport event. `now` is the caller's monotonic
    /// clock in milliseconds, `unix_now` the wall clock in seconds.
    pub fn handle(&mut self, frame: Frame, now: u64, unix_now: i64) -> (r: Reaction)
        requires
            old(self).wf(),
        ensures
            Self::step_ok(old(self), final(self)),
            old(self).closed ==> is_idle(r),
            !old(self).closed ==> match frame {
                Frame::Ping => sends(r, Outbound::Pong, Closing::Open)
                    && *final(self) == (Self { last_heartbeat: now, ..*old(self) }),
                Frame::Pong => is_idle(r) && *final(self) == (Self { last_heartbeat: now, ..*old(self) }),
                Frame::Text(t) => if old(self).auth_state == AuthState::Authenticated {
                    Self::normal_outcome(old(self), final(self), t, now, unix_now, r)
                } else {
                    Self::auth_outcome(old(self), final(self), t, now, unix_now, r)
                },
                Frame::Binary => *final(self) == *old(self) && if old(self).auth_state
                    == AuthState::Authenticated {
                    sends(r, Outbound::BinaryEcho, Closing::Open)
                } else {
                    sends_error(r, ErrorCode::Unauthorized, "Authentication required"@, Closing::Open)
                },
                Frame::Close => sends(r, Outbound::CloseEcho, Closing::Now)
                    && *final(self) == (Self { closed: true, ..*old(self) }),
                Frame::ProtocolError => r.reply is None && r.verify is None && r.close == Closing::Now && *final(self) == (Self { closed: true, ..*old(self) }),
                _ => is_idle(r) && *final(self) == *old(self),
            },
    {
        if self.closed {
            return Self::idle();
        }
        match frame {
            Frame::Ping => {
                self.last_heartbeat = now;
                Reaction { reply: Some(Outbound::Pong), verify: None, close: Closing::Open }
            },
            Frame::Pong => {
                self.last_heartbeat = now;
                Self::idle()
            },
            Frame::Text(t) => {
                if self.auth_state != AuthState::Authenticated {
                    self.handle_authentication_message(t, now, unix_now)
                } else {
                    self.handle_normal_message(t, now, unix_now)
                }
            },
            Frame::Binary => {
                if self.auth_state != AuthState::Authenticated {
                    Self::error(
                        ErrorCode::Unauthorized,
                        "Authentication required".to_owned(),
                        Closing::Open,
                    )
                } else {
                    Reaction { reply: Some(Outbound::BinaryEcho), verify: None, close: Closing::Open }
                }
            },
            Frame::Close => {
                self.closed = true;
                Reaction { reply: Some(Outbound::CloseEcho), verify: None, close: Closing::Now }
            },
            Frame::ProtocolError => {
                self.closed = true;
                Reaction { reply: None, verify: None, close: Closing::Now }
            },
            Frame::Continuation => Self::idle(),
            Frame::Nop => Self::idle(),
        }
    }

    /// Outcome of a text frame before authentication. A heartbeat still
    /// counts as a sign of life, though it is refused.
    pub open spec fn auth_outcome(
        old: &Self,
        new: &Self,
        t: Result<InboundMessage, String>,
        now: u64,
        unix_now: i64,
        r: Reaction,
    ) -> bool {
        match t {
            Err(e) => *new == *old && sends_error(
                r,
                ErrorCode::InvalidMessage,
                parse_failed_text(e@),
                Closing::Open,
            ),
            Ok(InboundMessage::Auth(m)) => match old.auth_state {
                AuthState::NotAuthenticated => Self::attempt_outcome(old, new, m, unix_now, r),
                AuthState::Authenticating => *new == *old && sends_error(
                    r,
                    ErrorCode::InvalidMessage,
                    "Authentication already in progress"@,
                    Closing::Open,
                ),
                _ => *new == *old && sends_error(
                    r,
                    ErrorCode::AuthFailed,
                    "Authentication already failed"@,
                    Closing::Open,
                ),
            },
            Ok(InboundMessage::Heartbeat) => *new == (Self { last_heartbeat: now, ..*old })
                && sends_error(
                r,
                ErrorCode::AuthRequired,
                "Authentication required as first message"@,
                Closing::Open,
            ),
            Ok(_) => *new == *old && sends_error(
                r,
                ErrorCode::AuthRequired,
                "Authentication required as first message"@,
                Closing::Open,
            ),
        }
    }

    /// Outcome of a first authentication attempt: a shape failure fails the
    /// session at once; a well-shaped message starts verification.
    pub open spec fn attempt_outcome(
        old: &Self,
        new: &Self,
        m: WebSocketAuthMessage,
        unix_now: i64,
        r: Reaction,
    ) -> bool {
        if m.shape_ok(unix_now as int) {
            &&& *new == (Self {
                auth_state: AuthState::Authenticating,
                pending_key: Some(m.public_key),
                ..*old
            })
            &&& r.reply is None
            &&& r.verify == Some(m)
            &&& r.close == Closing::Open
        } else {
            &&& *new == (Self { auth_state: AuthState::Failed, ..*old })
            &&& sends_error(
                r,
                ErrorCode::AuthFailed,
                "Authentication failed: Validation error: "@ + m.shape_error(unix_now as int),
                Closing::AfterDelay,
            )
        }
    }

    /// Outcome of a text frame once authenticated.
    pub open spec fn normal_outcome(
        old: &Self,
        new: &Self,
        t: Result<InboundMessage, String>,
        now: u64,
        unix_now: i64,
        r: Reaction,
    ) -> bool {
        match t {
            Err(e) => *new == *old && sends_error(
                r,
                ErrorCode::InvalidMessage,
                parse_failed_text(e@),
                Closing::Open,
            ),
            Ok(InboundMessage::Heartbeat) => *new == (Self { last_heartbeat: now, ..*old })
                && sends(r, Outbound::HeartbeatAck { timestamp: unix_now }, Closing::Open),
            Ok(InboundMessage::ConnectionUpdate { connected }) => *new == *old && sends(
                r,
                Outbound::ConnectionUpdateAck { connected },
                Closing::Open,
            ),
            Ok(InboundMessage::NetworkUpdate) => *new == *old && sends(
                r,
                Outbound::NetworkUpdateAck,
                Closing::Open,
            ),
            Ok(InboundMessage::Auth(_)) => *new == *old && sends(
                r,
                Outbound::AlreadyAuthenticated,
                Closing::Open,
            ),
            Ok(InboundMessage::Other) => *new == *old && sends(r, Outbound::Echo, Closing::Open),
        }
    }

    /// A text frame before authentication.
    fn handle_authentication_message(
        &mut self,
        t: Result<InboundMessage, String>,
        now: u64,
        unix_now: i64,
    ) -> (r: Reaction)
        requires
            old(self).wf(),
            !old(self).closed,
            old(self).auth_state != AuthState::Authenticated,
        ensures
            Self::auth_outcome(old(self), final(self), t, now, unix_now, r),
    {
        match t {
            Err(e) => {
                let message = "Failed to parse message: ".to_owned().concat(e.as_str());
                Self::error(ErrorCode::InvalidMessage, message, Closing::Open)
            },
            Ok(InboundMessage::Auth(m)) => {
                match self.auth_state {
                    AuthState::NotAuthenticated => self.verify_authentication(m, unix_now),
                    AuthState::Authenticating => Self::error(
                        ErrorCode::InvalidMessage,
                        "Authentication already in progress".to_owned(),
                        Closing::Open,
                    ),
                    _ => Self::error(
                        ErrorCode::AuthFailed,
                        "Authentication already failed".to_owned(),
                        Closing::Open,
                    ),
                }
            },
            Ok(InboundMessage::Heartbeat) => {
                self.last_heartbeat = now;
                Self::error(
                    ErrorCode::AuthRequired,
                    "Authentication required as first message".to_owned(),
                    Closing::Open,
                )
            },
            Ok(_) => Self::error(
                ErrorCode::AuthRequired,
                "Authentication required as first message".to_owned(),
                Closing::Open,
            ),
        }
    }

    /// Start an authentication attempt: check the message's shape, then hand
    /// it out for verification.
    fn verify_authentication(&mut self, m: WebSocketAuthMessage, unix_now: i64) -> (r: Reaction)
        requires
            old(self).wf(),
            old(self).auth_state == AuthState::NotAuthenticated,
        ensures
            Self::attempt_outcome(old(self), final(self), m, unix_now, r),
    {
        self.auth_state = AuthState::Authenticating;
        match m.validate_at(unix_now) {
            Err(e) => {
                self.auth_state = AuthState::Failed;
                let message = "Authentication failed: Validation error: ".to_owned().concat(
                    e.as_str(),
                );
                Self::error(ErrorCode::AuthFailed, message, Closing::AfterDelay)
            },
            Ok(()) => {
                self.pending_key = Some(m.public_key.clone());
                Reaction { reply: None, verify: Some(m), close: Closing::Open }
            },
        }
    }

    /// A text frame once authenticated.
    fn handle_normal_message(
        &mut self,
        t: Result<InboundMessage, String>,
        now: u64,
        unix_now: i64,
    ) -> (r: Reaction)
        requires
            old(self).wf(),
            old(self).auth_state == AuthState::Authenticated,
        ensures
            Self::normal_outcome(old(self), final(self), t, now, unix_now, r),
    {
        match t {
            Err(e) => {
                let message = "Failed to parse message: ".to_owned().concat(e.as_str());
                Self::error(ErrorCode::InvalidMessage, message, Closing::Open)
            },
            Ok(InboundMessage::Heartbeat) => {
                self.last_heartbeat = now;
                Reaction {
                    reply: Some(Outbound::HeartbeatAck { timestamp: unix_now }),
                    verify: None,
                    close: Closing::Open,
                }
            },
            Ok(InboundMessage::ConnectionUpdate { connected }) => Reaction {
                reply: Some(Outbound::ConnectionUpdateAck { connected }),
                verify: None,
                close: Closing::Open,
            },
            Ok(InboundMessage::NetworkUpdate) => Reaction {
                reply: Some(Outbound::NetworkUpdateAck),
                verify: None,
                close: Closing::Open,
            },
            Ok(InboundMessage::Auth(_)) => Reaction {
                reply: Some(Outbound::AlreadyAuthenticated),
                verify: None,
                close: Closing::Open,
            },
            Ok(InboundMessage::Other) => Reaction {
                reply: Some(Outbound::Echo),
                verify: None,
                close: Closing::Open,
            },
        }
    }

    /// The session after a verification result arrives: applied only while
    /// authenticating and open; a user makes it authenticated with the
    /// pending key, anything else makes it fail.
    pub open spec fn completed(old: &Self, result: DashboardResult<Option<i64>>) -> Self {
        if old.closed || old.auth_state != AuthState::Authenticating {
            *old
        } else {
            match result {
                Ok(Some(user_id)) => Self {
                    auth_state: AuthState::Authenticated,
                    user_id: Some(user_id),
                    public_key: old.pending_key,
                    pending_key: None,
                    ..*old
                },
                _ => Self { auth_state: AuthState::Failed, pending_key: None, ..*old },
            }
        }
    }

    /// The reply to a verification result: nothing when it is discarded;
    /// `auth_success` for a user; `unknown_key` for a key of no user and
    /// `auth_failed` for an error, both closing after the grace delay.
    pub open spec fn completion_reply(old: &Self, result: DashboardResult<Option<i64>>, r: Reaction) -> bool {
        if old.closed || old.auth_state != AuthState::Authenticating {
            is_idle(r)
        } else {
            match result {
                Ok(Some(user_id)) => sends(r, Outbound::AuthSuccess { user_id }, Closing::Open),
                Ok(None) => sends_error(
                    r,
                    ErrorCode::UnknownKey,
                    "Valid signature but no user associated with this public key"@,
                    Closing::AfterDelay,
                ),
                Err(e) => sends_error(r, ErrorCode::AuthFailed, auth_failed_text(e), Closing::AfterDelay),
            }
        }
    }

    /// Outcome of a heartbeat tick at `now`: a client silent for longer than
    /// `client_timeout` is dropped at once; otherwise it is probed.
    pub open spec fn tick_outcome(old: &Self, new: &Self, now: u64, r: Reaction) -> bool {
        if old.closed {
            is_idle(r) && *new == *old
        } else if elapsed(now, old.last_heartbeat) > old.client_timeout {
            r.reply is None && r.verify is None && r.close == Closing::Now && *new == (Self {
                closed: true,
                ..*old
            })
        } else {
            sends(r, Outbound::Ping, Closing::Open) && *new == *old
        }
    }

    /// Outcome of the authentication deadline: an open session that has not
    /// authenticated fails with `auth_timeout` and closes after the grace
    /// delay; otherwise nothing happens.
    pub open spec fn timeout_outcome(old: &Self, new: &Self, r: Reaction) -> bool {
        if !old.closed && (old.auth_state == AuthState::NotAuthenticated || old.auth_state
            == AuthState::Authenticating) {
            *new == (Self { auth_state: AuthState::Failed, pending_key: None, ..*old })
                && sends_error(r, ErrorCode::AuthTimeout, "Authentication timeout"@, Closing::AfterDelay)
        } else {
            is_idle(r) && *new == *old
        }
    }

    /// Outcome of the grace delay: the session closes.
    pub open spec fn grace_outcome(old: &Self, new: &Self, r: Reaction) -> bool {
        if old.closed {
            is_idle(r) && *new == *old
        } else {
            r.reply is None && r.verify is None && r.close == Closing::Now && *new == (Self {
                closed: true,
                ..*old
            })
        }
    }

    /// Apply the result of the verification that `handle` handed out. A
    /// result that arrives after the session left `Authenticating` (it timed
    /// out, or closed) is discarded.
    pub fn complete_authentication(&mut self, result: DashboardResult<Option<i64>>) -> (r: Reaction)
        requires
            old(self).wf(),
        ensures
            Self::step_ok(old(self), final(self)),
            *final(self) == Self::completed(old(self), result),
            Self::completion_reply(old(self), result, r),
    {
        if self.closed || self.auth_state != AuthState::Authenticating {
            return Self::idle();
        }
        match result {
            Ok(Some(user_id)) => {
                self.auth_state = AuthState::Authenticated;
                self.user_id = Some(user_id);
                self.public_key = self.pending_key.take();
                Reaction { reply: Some(Outbound::AuthSuccess { user_id }), verify: None, close: Closing::Open }
            },
            Ok(None) => {
                self.auth_state = AuthState::Failed;
                self.pending_key = None;
                Self::error(
                    ErrorCode::UnknownKey,
                    "Valid signature but no user associated with this public key".to_owned(),
                    Closing::AfterDelay,
                )
            },
            Err(e) => {
                self.auth_state = AuthState::Failed;
                self.pending_key = None;
                let message = "Authentication failed: ".to_owned().concat(e.to_text().as_str());
                Self::error(ErrorCode::AuthFailed, message, Closing::AfterDelay)
            },
        }
    }

    /// The heartbeat timer fired at `now`: drop a client silent for longer
    /// than `client_timeout`, whatever its authentication state; else probe it.
    pub fn heartbeat_tick(&mut self, now: u64) -> (r: Reaction)
        requires
            old(self).wf(),
        ensures
            Self::step_ok(old(self), final(self)),
            Self::tick_outcome(old(self), final(self), now, r),
    {
        if self.closed {
            return Self::idle();
        }
        if now > self.last_heartbeat && now - self.last_heartbeat > self.client_timeout {
            self.closed = true;
            return Reaction { reply: None, verify: None, close: Closing::Now };
        }
        Reaction { reply: Some(Outbound::Ping), verify: None, close: Closing::Open }
    }

    /// The authentication deadline passed. A session that has not
    /// authenticated (even with a verification in flight) fails with
    /// `auth_timeout` and closes after the grace delay; otherwise nothing
    /// happens.
    pub fn auth_timeout_elapsed(&mut self) -> (r: Reaction)
        requires
            old(self).wf(),
        ensures
            Self::step_ok(old(self), final(self)),
            Self::timeout_outcome(old(self), final(self), r),
    {
        if self.closed || self.auth_state == AuthState::Authenticated || self.auth_state
            == AuthState::Failed {
            return Self::idle();
        }
        self.auth_state = AuthState::Failed;
        self.pending_key = None;
        Self::error(ErrorCode::AuthTimeout, "Authentication timeout".to_owned(), Closing::AfterDelay)
    }

    /// The grace delay after a failure notice passed: the connection closes,
    /// whatever happened meanwhile.
    pub fn close_delay_elapsed(&mut self) -> (r: Reaction)
        requires
            old(self).wf(),
        ensures
            Self::step_ok(old(self), final(self)),
            Self::grace_outcome(old(self), final(self), r),
    {
        if self.closed {
            return Self::idle();
        }
        self.closed = true;
        Reaction { reply: None, verify: None, close: Closing::Now }
    }
}

/// A first authentication attempt whose message is well shaped starts its
/// verification; when that verification names a user, the session becomes
/// authenticated as that user with the message's key, and replies
/// `auth_success` without closing.
pub proof fn lemma_verified_attempt_authenticates(
    s0: WebSocketSession,
    s1: WebSocketSession,
    m: WebSocketAuthMessage,
    now: u64,
    unix_now: i64,
    r1: Reaction,
    u: i64,
    r2: Reaction,
)
    requires
        s0.wf(),
        !s0.closed,
        s0.auth_state == AuthState::NotAuthenticated,
        m.shape_ok(unix_now as int),
        WebSocketSession::auth_outcome(&s0, &s1, Ok(InboundMessage::Auth(m)), now, unix_now, r1),
        WebSocketSession::completion_reply(&s1, Ok(Some(u)), r2),
    ensures
        r1.verify == Some(m),
        r1.reply is None,
        r1.close == Closing::Open,
        WebSocketSession::completed(&s1, Ok(Some(u))).auth_state == AuthState::Authenticated,
        WebSocketSession::completed(&s1, Ok(Some(u))).user_id == Some(u),
        WebSocketSession::completed(&s1, Ok(Some(u))).public_key == Some(m.public_key),
        sends(r2, Outbound::AuthSuccess { user_id: u }, Closing::Open),
{
}

/// When the verification of a first attempt finds no user for the key, the
/// session fails with no user and no key, replies `unknown_key`, and closes
/// after the grace delay; it never becomes authenticated.
pub proof fn lemma_unknown_key_closes(
    s0: WebSocketSession,
    s1: WebSocketSession,
    m: WebSocketAuthMessage,
    now: u64,
    unix_now: i64,
    r1: Reaction,
    r2: Reaction,
)
    requires
        s0.wf(),
        !s0.closed,
        s0.auth_state == AuthState::NotAuthenticated,
        m.shape_ok(unix_now as int),
        WebSocketSession::auth_outcome(&s0, &s1, Ok(InboundMessage::Auth(m)), now, unix_now, r1),
        WebSocketSession::completion_reply(&s1, Ok(None), r2),
    ensures
        WebSocketSession::completed(&s1, Ok(None)).auth_state == AuthState::Failed,
        WebSocketSession::completed(&s1, Ok(None)).user_id is None,
        WebSocketSession::completed(&s1, Ok(None)).public_key is None,
        sends_error(
            r2,
            ErrorCode::UnknownKey,
            "Valid signature but no user associated with this public key"@,
            Closing::AfterDelay,
        ),
{
}

/// An open session that has not authenticated when the deadline passes
/// sends `auth_timeout`, and is closed once the grace delay has passed.
pub proof fn lemma_auth_timeout_closes(
    s0: WebSocketSession,
    s1: WebSocketSession,
    s2: WebSocketSession,
    r1: Reaction,
    r2: Reaction,
)
    requires
        s0.wf(),
        !s0.closed,
        s0.auth_state != AuthState::Authenticated,
        s0.auth_state != AuthState::Failed,
        WebSocketSession::timeout_outcome(&s0, &s1, r1),
        WebSocketSession::grace_outcome(&s1, &s2, r2),
    ensures
        sends_error(r1, ErrorCode::AuthTimeout, "Authentication timeout"@, Closing::AfterDelay),
        s2.closed,
        r2.close == Closing::Now,
        s2.auth_state == AuthState::Failed,
        s2.user_id is None,
{
}

/// A client silent for longer than `client_timeout` is closed at the next
/// heartbeat tick, without a probe, whatever its authentication state.
pub proof fn lemma_idle_client_closed(s0: WebSocketSession, s1: WebSocketSession, now: u64, r: Reaction)
    requires
        !s0.closed,
        elapsed(now, s0.last_heartbeat) > s0.client_timeout,
        WebSocketSession::tick_outcome(&s0, &s1, now, r),
    ensures
        s1.closed,
        r.close == Closing::Now,
        r.reply is None,
        s1.auth_state == s0.auth_state,
{
}

/// Unparseable text before authentication gets `invalid_message` and leaves
/// the session as it was: open, with no verification started, so the client
/// may still authenticate.
pub proof fn lemma_malformed_text_keeps_session(
    s0: WebSocketSession,
    s1: WebSocketSession,
    e: String,
    now: u64,
    unix_now: i64,
    r: Reaction,
)
    requires
        WebSocketSession::auth_outcome(&s0, &s1, Err(e), now, unix_now, r),
    ensures
        s1 == s0,
        sends_error(r, ErrorCode::InvalidMessage, parse_failed_text(e@), Closing::Open),
        r.verify is None,
{
}

/// Once authenticated, a heartbeat refreshes liveness and is acknowledged
/// with the wall clock; the authentication is unchanged.
pub proof fn lemma_heartbeat_acknowledged(
    s0: WebSocketSession,
    s1: WebSocketSession,
    now: u64,
    unix_now: i64,
    r: Reaction,
)
    requires
        WebSocketSession::normal_outcome(&s0, &s1, Ok(InboundMessage::Heartbeat), now, unix_now, r),
    ensures
        s1.last_heartbeat == now,
        sends(r, Outbound::HeartbeatAck { timestamp: unix_now }, Closing::Open),
        s1.auth_state == s0.auth_state,
        s1.user_id == s0.user_id,
        s1.public_key == s0.public_key,
{
}

/// Once authenticated, another authentication message gets an
/// informational reply, not an error, and changes nothing.
pub proof fn lemma_second_auth_informational(
    s0: WebSocketSession,
    s1: WebSocketSession,
    m: WebSocketAuthMessage,
    now: u64,
    unix_now: i64,
    r: Reaction,
)
    requires
        WebSocketSession::normal_outcome(&s0, &s1, Ok(InboundMessage::Auth(m)), now, unix_now, r),
    ensures
        sends(r, Outbound::AlreadyAuthenticated, Closing::Open),
        s1 == s0,
{
}

} // verus!
