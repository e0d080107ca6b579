use vstd::prelude::*;
use crate::crypto::{all_hex, decimal_string, decimal_text, is_hex_text, unix_now};

verus! {

/// Oldest accepted message age, in seconds.
pub const MAX_MESSAGE_AGE: i64 = 300;

/// How far ahead of the server clock a timestamp may lie, in seconds.
pub const MAX_CLOCK_SKEW: i64 = 60;

/// Message for WebSocket authentication using ed25519 signatures.
#[derive(Debug, Clone)]
pub struct WebSocketAuthMessage {
    /// Hex-encoded public key of the signer.
    pub public_key: String,
    /// Signer's clock, in seconds since the Unix epoch.
    pub timestamp: i64,
    /// Random text that makes each signed payload unique.
    pub nonce: String,
    /// Hex-encoded ed25519 signature over the signed payload.
    pub signature: String,
}

/// Response to a WebSocket authentication attempt.
#[derive(Debug, Clone)]
pub struct WebSocketAuthResponse {
    pub success: bool,
    pub message: String,
    pub session_id: Option<String>,
}

/// What is known of one WebSocket connection. Times are in seconds since
/// the Unix epoch.
#[derive(Debug, Clone)]
pub struct WebSocketConnectionInfo {
    pub session_id: String,
    /// User id once authenticated
    pub user_id: Option<i64>,
    pub client_ip: String,
    pub created_at: i64,
    /// When the last message was received
    pub last_active: i64,
    pub authenticated: bool,
}

/// The text a client signs: the timestamp in decimal, a colon, the nonce.
pub open spec fn signed_payload(timestamp: i64, nonce: Seq<char>) -> Seq<char> {
    decimal_text(timestamp as int) + ":"@ + nonce
}

/// A public key shape: 64 or 128 hexadecimal digits.
pub open spec fn public_key_shape_ok(k: Seq<char>) -> bool {
    (k.len() == 64 || k.len() == 128) && all_hex(k)
}

/// The timestamp lies at most 60 s ahead of `now` and at most 300 s behind it.
pub open spec fn timestamp_fresh(now: int, timestamp: int) -> bool {
    -(MAX_CLOCK_SKEW as int) <= now - timestamp && now - timestamp <= MAX_MESSAGE_AGE as int
}

/// A nonce holds between 8 and 64 characters.
pub open spec fn nonce_shape_ok(n: Seq<char>) -> bool {
    8 <= n.len() <= 64
}

/// A signature shape: 128 hexadecimal digits.
pub open spec fn signature_shape_ok(s: Seq<char>) -> bool {
    s.len() == 128 && all_hex(s)
}

impl WebSocketAuthMessage {
    /// The message passes every shape rule at server time `now`.
    pub open spec fn shape_ok(&self, now: int) -> bool {
        &&& public_key_shape_ok(self.public_key@)
        &&& timestamp_fresh(now, self.timestamp as int)
        &&& nonce_shape_ok(self.nonce@)
        &&& signature_shape_ok(self.signature@)
    }

    /// The first shape rule that the message breaks at server time `now`,
    /// as the text reported for it.
    pub open spec fn shape_error(&self, now: int) -> Seq<char> {
        let d = now - self.timestamp as int;
        if !(self.public_key@.len() == 64 || self.public_key@.len() == 128) {
            "Invalid public key length"@
        } else if !all_hex(self.public_key@) {
            "Public key must be a hexadecimal string"@
        } else if d < -(MAX_CLOCK_SKEW as int) {
            "Timestamp is in the future"@
        } else if d > MAX_MESSAGE_AGE as int {
            "Authentication message has expired"@
        } else if !nonce_shape_ok(self.nonce@) {
            "Invalid nonce length"@
        } else if self.signature@.len() != 128 {
            "Invalid signature length"@
        } else {
            "Signature must be a hexadecimal string"@
        }
    }

    /// Create a new authentication message.
    pub fn new(public_key: String, timestamp: i64, nonce: String, signature: String) -> (r: Self)
        ensures
            r.public_key == public_key,
            r.timestamp == timestamp,
            r.nonce == nonce,
            r.signature == signature,
    {
        WebSocketAuthMessage { public_key, timestamp, nonce, signature }
    }

    /// The text that was signed: `"{timestamp}:{nonce}"`.
    pub fn get_signed_message(&self) -> (r: String)
        ensures
            r@ == signed_payload(self.timestamp, self.nonce@),
    {
        let digits = decimal_string(self.timestamp as i128);
        digits.concat(":").concat(self.nonce.as_str())
    }

    /// Check the shape of the message at server time `now` (seconds since the
    /// Unix epoch), before any cryptographic check.
    pub fn validate_at(&self, now: i64) -> (r: Result<(), String>)
        ensures
            r is Ok <==> self.shape_ok(now as int),
            r matches Err(m) ==> m@ == self.shape_error(now as int),
    {
        let key_len = self.public_key.as_str().unicode_len();
        if key_len != 64 && key_len != 128 {
            return Err("Invalid public key length".to_owned());
        }
        if !is_hex_text(self.public_key.as_str()) {
            return Err("Public key must be a hexadecimal string".to_owned());
        }
        let diff: i128 = now as i128 - self.timestamp as i128;
        if diff < -(MAX_CLOCK_SKEW as i128) {
            return Err("Timestamp is in the future".to_owned());
        }
        if diff > MAX_MESSAGE_AGE as i128 {
            return Err("Authentication message has expired".to_owned());
        }
        let nonce_len = self.nonce.as_str().unicode_len();
        if nonce_len < 8 || nonce_len > 64 {
            return Err("Invalid nonce length".to_owned());
        }
        if self.signature.as_str().unicode_len() != 128 {
            return Err("Invalid signature length".to_owned());
        }
        if !is_hex_text(self.signature.as_str()) {
            return Err("Signature must be a hexadecimal string".to_owned());
        }
        Ok(())
    }

    /// Check the shape of the message against the current wall clock.
    pub fn validate(&self) -> (r: Result<(), String>)
        ensures
            exists|now: i64| {
                &&& (r is Ok <==> self.shape_ok(now as int))
                &&& (r matches Err(m) ==> m@ == self.shape_error(now as int))
            },
    {
        let now = unix_now();
        let r = self.validate_at(now);
        assert((r is Ok <==> self.shape_ok(now as int)) && (r matches Err(m) ==> m@
            == self.shape_error(now as int)));
        r
    }
}

} // verus!
