//! Ed25519 challenge verification and public-key registration.

use vstd::prelude::*;
use vstd::utf8::encode_utf8;
use crate::crypto::{
    all_hex, decimal_string, decimal_text, ed25519_accepts, ed25519_key_decodes, ed25519_key_valid,
    ed25519_verify, hex_bytes, hex_decode, is_hex_text, to_array32, to_array64, unix_now,
};
use crate::errors::{DashboardError, DashboardResult};
use crate::handlers::websocket::{AuthState, WebSocketSession};
use crate::models::websocket::{
    public_key_shape_ok, signed_payload, timestamp_fresh, WebSocketAuthMessage,
};
use crate::storage::memory::{
    is_bound, keys_of, owner, stored, user_by_id, InMemoryUserStorage,
};

verus! {

/// Outcome of checking a hex-encoded signature over message bytes under a
/// hex-encoded public key: `Ok(valid)` once both decode to the right sizes
/// and the key is a curve point, else `Err` with the reason.
pub open spec fn signature_check(key_hex: Seq<char>, message: Seq<u8>, signature_hex: Seq<char>) -> Result<
    bool,
    Seq<char>,
> {
    if !(key_hex.len() % 2 == 0 && all_hex(key_hex)) {
        Err("Invalid public key format"@)
    } else if hex_bytes(key_hex).len() != 32 {
        Err(
            "Public key must be 32 bytes, got "@ + decimal_text(hex_bytes(key_hex).len() as int)
                + " bytes"@,
        )
    } else if !ed25519_key_decodes(hex_bytes(key_hex)) {
        Err("Invalid public key"@)
    } else if !(signature_hex.len() % 2 == 0 && all_hex(signature_hex)) {
        Err("Invalid signature format"@)
    } else if hex_bytes(signature_hex).len() != 64 {
        Err(
            "Signature must be 64 bytes, got "@ + decimal_text(hex_bytes(signature_hex).len() as int)
                + " bytes"@,
        )
    } else {
        Ok(ed25519_accepts(hex_bytes(key_hex), message, hex_bytes(signature_hex)))
    }
}

/// The bytes a client signs for an authentication message.
pub open spec fn payload_bytes(m: WebSocketAuthMessage) -> Seq<u8> {
    encode_utf8(signed_payload(m.timestamp, m.nonce@))
}

/// The user that a public key resolves to in a directory: the key's owner,
/// provided that user exists.
pub open spec fn resolved_user(d: InMemoryUserStorage, key: Seq<char>) -> Option<i64> {
    match owner(d.bindings(), key) {
        Some(u) => if user_by_id(d.user_list(), u) is Some {
            Some(u)
        } else {
            None
        },
        None => None,
    }
}

/// Whether verifying `m` at time `now` against directory `d` succeeds, and
/// with which user: `Some(Some(u))` for user `u`, `Some(None)` for a valid
/// signature under a key of no user, `None` for a rejected message.
pub open spec fn auth_outcome(d: InMemoryUserStorage, m: WebSocketAuthMessage, now: int) -> Option<
    Option<i64>,
> {
    if !m.shape_ok(now) {
        None
    } else if signature_check(m.public_key@, payload_bytes(m), m.signature@) != Ok::<
        bool,
        Seq<char>,
    >(true) {
        None
    } else {
        Some(resolved_user(d, m.public_key@))
    }
}

/// A well-shaped message whose 64-digit key decodes and whose signature is
/// valid over `"{timestamp}:{nonce}"` passes verification; when the key is
/// bound to an existing user, the session that was waiting on it becomes
/// authenticated as that user.
pub proof fn lemma_valid_signature_authenticates(
    d: InMemoryUserStorage,
    m: WebSocketAuthMessage,
    now: int,
    s: WebSocketSession,
    u: i64,
)
    requires
        m.shape_ok(now),
        m.public_key@.len() == 64,
        ed25519_key_decodes(hex_bytes(m.public_key@)),
        ed25519_accepts(hex_bytes(m.public_key@), payload_bytes(m), hex_bytes(m.signature@)),
        owner(d.bindings(), m.public_key@) == Some(u),
        user_by_id(d.user_list(), u) is Some,
        s.wf(),
        !s.closed,
        s.auth_state == AuthState::Authenticating,
    ensures
        signature_check(m.public_key@, payload_bytes(m), m.signature@) == Ok::<bool, Seq<char>>(true),
        auth_outcome(d, m, now) == Some(Some(u)),
        WebSocketSession::completed(&s, Ok(Some(u))).auth_state == AuthState::Authenticated,
        WebSocketSession::completed(&s, Ok(Some(u))).user_id == Some(u),
{
}

/// A valid signature under a key bound to no user resolves to no user, and
/// the waiting session fails instead of authenticating.
pub proof fn lemma_unknown_key_fails(
    d: InMemoryUserStorage,
    m: WebSocketAuthMessage,
    now: int,
    s: WebSocketSession,
)
    requires
        m.shape_ok(now),
        m.public_key@.len() == 64,
        ed25519_key_decodes(hex_bytes(m.public_key@)),
        ed25519_accepts(hex_bytes(m.public_key@), payload_bytes(m), hex_bytes(m.signature@)),
        !is_bound(d.bindings(), m.public_key@),
        s.wf(),
        !s.closed,
        s.auth_state == AuthState::Authenticating,
    ensures
        auth_outcome(d, m, now) == Some(None::<i64>),
        WebSocketSession::completed(&s, Ok(None)).auth_state == AuthState::Failed,
        WebSocketSession::completed(&s, Ok(None)).user_id is None,
{
}

/// A timestamp outside the window (more than 60 s ahead or 300 s behind)
/// fails the shape check, whatever the signature; with a well-formed key the
/// reason is the timestamp.
pub proof fn lemma_stale_timestamp_rejected(d: InMemoryUserStorage, m: WebSocketAuthMessage, now: int)
    requires
        !timestamp_fresh(now, m.timestamp as int),
    ensures
        !m.shape_ok(now),
        auth_outcome(d, m, now) is None,
        public_key_shape_ok(m.public_key@) ==> m.shape_error(now) == "Timestamp is in the future"@
            || m.shape_error(now) == "Authentication message has expired"@,
{
}

/// Verify a hex-encoded ed25519 signature of `message` under a
/// hex-encoded public key. Malformed input is an error, a signature that
/// does not verify is `Ok(false)`.
pub fn check_signature(public_key_hex: &str, message: &str, signature_hex: &str) -> (r:
    DashboardResult<bool>)
    ensures
        match signature_check(public_key_hex@, encode_utf8(message@), signature_hex@) {
            Ok(b) => r == Ok::<bool, DashboardError>(b),
            Err(t) => r matches Err(DashboardError::Validation(m)) && m@ == t,
        },
{
    let key_bytes = match hex_decode(public_key_hex) {
        Ok(b) => b,
        Err(_) => {
            return Err(DashboardError::validation("Invalid public key format"));
        },
    };
    if key_bytes.len() != 32 {
        let m = "Public key must be 32 bytes, got ".to_owned().concat(
            decimal_string(key_bytes.len() as i128).as_str(),
        ).concat(" bytes");
        return Err(DashboardError::validation(m.as_str()));
    }
    let key = to_array32(&key_bytes);
    if !ed25519_key_valid(&key) {
        return Err(DashboardError::validation("Invalid public key"));
    }
    let sig_bytes = match hex_decode(signature_hex) {
        Ok(b) => b,
        Err(_) => {
            return Err(DashboardError::validation("Invalid signature format"));
        },
    };
    if sig_bytes.len() != 64 {
        let m = "Signature must be 64 bytes, got ".to_owned().concat(
            decimal_string(sig_bytes.len() as i128).as_str(),
        ).concat(" bytes");
        return Err(DashboardError::validation(m.as_str()));
    }
    let sig = to_array64(&sig_bytes);
    match ed25519_verify(&key, message.as_bytes(), &sig) {
        Ok(valid) => Ok(valid),
        Err(_) => Err(DashboardError::validation("Invalid public key")),
    }
}

/// Service for ed25519 signature verification against the directory.
pub struct SignatureService {
    user_storage: InMemoryUserStorage,
}

impl SignatureService {
    /// The directory the service resolves keys in.
    pub closed spec fn directory(&self) -> InMemoryUserStorage {
        self.user_storage
    }

    /// Create a service over the given directory.
    pub fn new(user_storage: InMemoryUserStorage) -> (r: Self)
        ensures
            r.directory() == user_storage,
    {
        SignatureService { user_storage }
    }

    /// The directory, for reading.
    pub fn user_storage(&self) -> (r: &InMemoryUserStorage)
        ensures
            *r == self.directory(),
    {
        &self.user_storage
    }

    /// Verify a hex-encoded ed25519 signature of `message` under a
    /// hex-encoded public key, as `check_signature` does.
    pub fn verify_signature(&self, public_key_hex: &str, message: &str, signature_hex: &str) -> (r:
        DashboardResult<bool>)
        ensures
            match signature_check(public_key_hex@, encode_utf8(message@), signature_hex@) {
                Ok(b) => r == Ok::<bool, DashboardError>(b),
                Err(t) => r matches Err(DashboardError::Validation(m)) && m@ == t,
            },
    {
        check_signature(public_key_hex, message, signature_hex)
    }

    /// Verify an authentication message at server time `now` (seconds since
    /// the Unix epoch): shape first, then the signature over the signed
    /// payload, then the key's user. `Ok(Some(user))` for a registered key,
    /// `Ok(None)` for a valid signature under a key of no user.
    pub fn verify_websocket_auth_at(&self, auth_msg: &WebSocketAuthMessage, now: i64) -> (r:
        DashboardResult<Option<i64>>)
        requires
            self.directory().wf(),
        ensures
            r is Ok <==> auth_outcome(self.directory(), *auth_msg, now as int) is Some,
            r matches Ok(x) ==> auth_outcome(self.directory(), *auth_msg, now as int) == Some(x),
            !auth_msg.shape_ok(now as int) ==> (r matches Err(DashboardError::Validation(m)) && m@
                == auth_msg.shape_error(now as int)),
            auth_msg.shape_ok(now as int) ==> match signature_check(
                auth_msg.public_key@,
                payload_bytes(*auth_msg),
                auth_msg.signature@,
            ) {
                Err(t) => r matches Err(DashboardError::Validation(m)) && m@ == t,
                Ok(false) => r matches Err(DashboardError::Authentication(m)) && m@
                    == "Invalid signature"@,
                Ok(true) => r == Ok::<Option<i64>, DashboardError>(
                    resolved_user(self.directory(), auth_msg.public_key@),
                ),
            },
    {
        Self::verify_auth_in(&self.user_storage, auth_msg, now)
    }

    /// Verify an authentication message at server time `now` against a
    /// directory, as `verify_websocket_auth_at` does.
    pub fn verify_auth_in(directory: &InMemoryUserStorage, auth_msg: &WebSocketAuthMessage, now: i64) -> (r:
        DashboardResult<Option<i64>>)
        requires
            directory.wf(),
        ensures
            r is Ok <==> auth_outcome(*directory, *auth_msg, now as int) is Some,
            r matches Ok(x) ==> auth_outcome(*directory, *auth_msg, now as int) == Some(x),
            !auth_msg.shape_ok(now as int) ==> (r matches Err(DashboardError::Validation(m)) && m@
                == auth_msg.shape_error(now as int)),
            auth_msg.shape_ok(now as int) ==> match signature_check(
                auth_msg.public_key@,
                payload_bytes(*auth_msg),
                auth_msg.signature@,
            ) {
                Err(t) => r matches Err(DashboardError::Validation(m)) && m@ == t,
                Ok(false) => r matches Err(DashboardError::Authentication(m)) && m@
                    == "Invalid signature"@,
                Ok(true) => r == Ok::<Option<i64>, DashboardError>(
                    resolved_user(*directory, auth_msg.public_key@),
                ),
            },
    {
        if let Err(e) = auth_msg.validate_at(now) {
            return Err(DashboardError::Validation(e));
        }
        let signed = auth_msg.get_signed_message();
        let verified = check_signature(
            auth_msg.public_key.as_str(),
            signed.as_str(),
            auth_msg.signature.as_str(),
        )?;
        if !verified {
            return Err(DashboardError::authentication("Invalid signature"));
        }
        let user = directory.find_user_by_public_key(auth_msg.public_key.as_str())?;
        match user {
            Some(user) => {
                // Recording the key's use is advisory: its failure does not
                // fail the authentication.
                let _ = directory.update_public_key_last_used(
                    user.id,
                    auth_msg.public_key.as_str(),
                );
                Ok(Some(user.id))
            },
            None => Ok(None),
        }
    }

    /// Verify an authentication message against the current wall clock.
    pub fn verify_websocket_auth(&self, auth_msg: &WebSocketAuthMessage) -> (r: DashboardResult<
        Option<i64>,
    >)
        requires
            self.directory().wf(),
        ensures
            exists|now: i64|
                {
                    &&& (r is Ok <==> auth_outcome(self.directory(), *auth_msg, now as int) is Some)
                    &&& (r matches Ok(x) ==> auth_outcome(self.directory(), *auth_msg, now as int)
                        == Some(x))
                },
    {
        let now = unix_now();
        self.verify_websocket_auth_at(auth_msg, now)
    }

    /// Register a public key for a user: 64 hexadecimal digits, bound as
    /// the directory's `store_public_key` does.
    pub fn register_public_key(&mut self, user_id: i64, public_key: &str) -> (r: DashboardResult<()>)
        requires
            old(self).directory().wf(),
        ensures
            final(self).directory().wf(),
            final(self).directory().user_list() == old(self).directory().user_list(),
            !(public_key@.len() == 64 && all_hex(public_key@)) ==> final(self).directory() == old(
                self,
            ).directory() && (r matches Err(DashboardError::Validation(m)) && m@
                == "Invalid public key format"@),
            public_key@.len() == 64 && all_hex(public_key@) ==> match stored(
                old(self).directory().bindings(),
                user_id,
                public_key@,
            ) {
                Some(b) => r is Ok && final(self).directory().bindings() == b,
                None => final(self).directory().bindings() == old(self).directory().bindings()
                    && r is Err,
            },
    {
        if public_key.unicode_len() != 64 || !is_hex_text(public_key) {
            return Err(DashboardError::validation("Invalid public key format"));
        }
        self.user_storage.store_public_key(user_id, public_key)
    }

    /// Revoke a user's public key, as the directory's `revoke_public_key` does.
    pub fn revoke_public_key(&mut self, user_id: i64, public_key: &str) -> (r: DashboardResult<bool>)
        requires
            old(self).directory().wf(),
        ensures
            final(self).directory().wf(),
            final(self).directory().user_list() == old(self).directory().user_list(),
            match owner(old(self).directory().bindings(), public_key@) {
                Some(v) => if v == user_id {
                    r == Ok::<bool, DashboardError>(true) && owner(
                        final(self).directory().bindings(),
                        public_key@,
                    ) is None
                } else {
                    r is Err && final(self).directory().bindings() == old(self).directory().bindings()
                },
                None => r == Ok::<bool, DashboardError>(false) && final(self).directory().bindings()
                    == old(self).directory().bindings(),
            },
    {
        self.user_storage.revoke_public_key(user_id, public_key)
    }

    /// The public keys of a user, in the order they were bound.
    pub fn get_user_public_keys(&self, user_id: i64) -> (r: DashboardResult<Vec<String>>)
        requires
            self.directory().wf(),
        ensures
            r matches Ok(v) && v@.map_values(|s: String| s@) == keys_of(
                self.directory().bindings(),
                user_id,
            ),
    {
        self.user_storage.get_public_keys_for_user(user_id)
    }
}

} // verus!
