//! User accounts: registration, password login with tokens, profile and
//! public-key management.

use vstd::prelude::*;
use argon2::password_hash::{PasswordHasher, PasswordVerifier};
use vstd::utf8::encode_utf8;
use crate::crypto::{all_hex, decimal_string, decimal_text, is_hex_text, unix_now};
use crate::errors::{DashboardError, DashboardResult};
use crate::models::user::{CreateUserDto, UpdateUserDto, User, UserLoginResponse};
use crate::numbers::{parse_i64, signed_text};
use crate::storage::memory::{
    credentials_of, keys_of, owner, stored, updated, user_by_email, user_by_id, user_not_found_text,
    InMemoryUserStorage,
};

verus! {

/// The error type of the password-hash crate.
#[verifier::external_type_specification]
#[verifier::external_body]
pub struct ExPasswordHashError(argon2::password_hash::Error);

/// The error type of jsonwebtoken.
#[verifier::external_type_specification]
#[verifier::external_body]
pub struct ExJwtError(jsonwebtoken::errors::Error);

/// Whether Argon2 accepts a password against an encoded password hash.
pub uninterp spec fn argon2_accepts(password: Seq<u8>, hash: Seq<char>) -> bool;

/// The HS256 token over the claims `sub`, `iss`, `exp` and `iat`, signed
/// with a secret.
pub uninterp spec fn hs256_token(
    subject: Seq<char>,
    issuer: Seq<char>,
    expires: u64,
    issued: u64,
    secret: Seq<char>,
) -> Seq<char>;

/// Relies on argon2's `hash_password` with a salt that `SaltString::generate`
/// draws from the OS: the encoded hash and the salt. Nothing is known of
/// either.
#[verifier::external_body]
fn hash_password(password: &str) -> (r: Result<(String, String), argon2::password_hash::Error>) {
    let salt = argon2::password_hash::SaltString::generate(&mut argon2::password_hash::rand_core::OsRng);
    let hash = argon2::Argon2::default().hash_password(password.as_bytes(), &salt)?;
    Ok((hash.to_string(), salt.to_string()))
}

/// Relies on `PasswordHash::new` and argon2's `verify_password`: `Err` when
/// the stored hash does not parse, else whether the password matches it.
#[verifier::external_body]
fn verify_password(password: &str, hash: &str) -> (r: Result<bool, argon2::password_hash::Error>)
    ensures
        r matches Ok(b) ==> b == argon2_accepts(encode_utf8(password@), hash@),
{
    let parsed = argon2::password_hash::PasswordHash::new(hash)?;
    Ok(argon2::Argon2::default().verify_password(password.as_bytes(), &parsed).is_ok())
}

/// Relies on `nanoid::format` with the default random source and the
/// URL-safe alphabet: a random 21-character id. Nothing is known of it.
#[verifier::external_body]
fn random_id() -> (r: String) {
    nanoid::format(nanoid::rngs::default, &nanoid::alphabet::SAFE, 21)
}

/// Relies on `jsonwebtoken::encode` with the default (HS256) header: the
/// token over the four claims.
#[verifier::external_body]
fn encode_token(subject: &str, issuer: &str, expires: u64, issued: u64, secret: &str) -> (r: Result<
    String,
    jsonwebtoken::errors::Error,
>)
    ensures
        r matches Ok(t) ==> t@ == hs256_token(subject@, issuer@, expires, issued, secret@),
{
    let claims = std::collections::BTreeMap::from([
        ("sub", serde_json::Value::from(subject)),
        ("iss", serde_json::Value::from(issuer)),
        ("exp", serde_json::Value::from(expires)),
        ("iat", serde_json::Value::from(issued)),
    ]);
    let key = jsonwebtoken::EncodingKey::from_secret(secret.as_bytes());
    jsonwebtoken::encode(&jsonwebtoken::Header::default(), &claims, &key)
}

/// Relies on `jsonwebtoken::decode` with the default validation (HS256, the
/// expiry checked against the clock): the `sub` claim of an accepted token,
/// if it is a string. The outcome depends on the time: nothing is known of it.
#[verifier::external_body]
fn decode_token_subject(token: &str, secret: &str) -> (r: Result<
    Option<String>,
    jsonwebtoken::errors::Error,
>) {
    let key = jsonwebtoken::DecodingKey::from_secret(secret.as_bytes());
    let validation = jsonwebtoken::Validation::default();
    let data = jsonwebtoken::decode::<std::collections::BTreeMap<String, serde_json::Value>>(
        token,
        &key,
        &validation,
    )?;
    Ok(data.claims.get("sub").and_then(|v| v.as_str()).map(|s| s.to_owned()))
}

/// The issuer named in every token.
pub open spec fn token_issuer() -> Seq<char> {
    "dashboard_system"@
}

/// A public key as users register it: 64 hexadecimal digits.
pub open spec fn ed25519_key_text(k: Seq<char>) -> bool {
    k.len() == 64 && all_hex(k)
}

/// User service over the directory.
pub struct UserService {
    storage: InMemoryUserStorage,
    jwt_secret: String,
    jwt_expiration: i64,
}

impl UserService {
    /// The directory the service works on.
    pub closed spec fn directory(&self) -> InMemoryUserStorage {
        self.storage
    }

    /// The secret that signs tokens.
    pub closed spec fn secret(&self) -> Seq<char> {
        self.jwt_secret@
    }

    /// Seconds a login stays valid.
    pub closed spec fn expiration(&self) -> i64 {
        self.jwt_expiration
    }

    pub fn new(storage: InMemoryUserStorage, jwt_secret: String, jwt_expiration: i64) -> (r: Self)
        ensures
            r.directory() == storage,
            r.secret() == jwt_secret@,
            r.expiration() == jwt_expiration,
    {
        UserService { storage, jwt_secret, jwt_expiration }
    }

    /// The directory, for reading.
    pub fn user_storage(&self) -> (r: &InMemoryUserStorage)
        ensures
            *r == self.directory(),
    {
        &self.storage
    }

    fn not_found(id: i64) -> (r: DashboardError)
        ensures
            r matches DashboardError::NotFound(m) && m@ == user_not_found_text(id),
    {
        let m = "User with ID ".to_owned().concat(decimal_string(id as i128).as_str()).concat(" not found");
        DashboardError::NotFound(m)
    }

    /// Register a user: a taken email is refused; the password is hashed with
    /// a fresh salt and stored as the user's credentials.
    pub fn register_user(&mut self, user_data: CreateUserDto) -> (r: DashboardResult<User>)
        requires
            old(self).directory().wf(),
        ensures
            final(self).directory().wf(),
            user_by_email(old(self).directory().user_list(), user_data.email@) is Some ==> *final(self)
                == *old(self) && (r matches Err(DashboardError::Validation(m)) && m@
                == "User with email "@ + user_data.email@ + " already exists"@),
            user_by_email(old(self).directory().user_list(), user_data.email@) is None && old(
                self,
            ).directory().next_user_id() < i64::MAX ==> r is Ok || (r matches Err(
                DashboardError::InternalServer(m),
            ) && m@ == "Password hashing error"@),
            r matches Ok(u) ==> u.email == user_data.email && u.username == user_data.username
                && final(self).directory().user_list() == old(self).directory().user_list().push(u)
                && credentials_of(final(self).directory().credential_list(), u.id) is Some,
    {
        if let Some(_) = self.storage.find_user_by_email(user_data.email.as_str())? {
            let m = "User with email ".to_owned().concat(user_data.email.as_str()).concat(
                " already exists",
            );
            return Err(DashboardError::Validation(m));
        }
        let (hash, salt) = match hash_password(user_data.password.as_str()) {
            Ok(pair) => pair,
            Err(_) => {
                return Err(DashboardError::internal_server("Password hashing error"));
            },
        };
        let user = self.storage.create_user(user_data)?;
        self.storage.store_credentials(user.id, hash.as_str(), salt.as_str())?;
        Ok(user)
    }

    /// Log in with email and password: a token for the user, valid for the
    /// configured number of seconds, and a stored login session.
    pub fn login(&mut self, email: &str, password: &str, ip_address: &str, user_agent: &str) -> (r:
        DashboardResult<UserLoginResponse>)
        requires
            old(self).directory().wf(),
        ensures
            final(self).directory().wf(),
            final(self).directory().bindings() == old(self).directory().bindings(),
            user_by_email(old(self).directory().user_list(), email@) is None ==> (r matches Err(
                DashboardError::Authentication(m),
            ) && m@ == "Invalid email or password"@),
            user_by_email(old(self).directory().user_list(), email@) matches Some(u) && credentials_of(
                old(self).directory().credential_list(),
                u.id,
            ) is None ==> (r matches Err(DashboardError::Authentication(m)) && m@
                == "Credentials not found"@),
            user_by_email(old(self).directory().user_list(), email@) matches Some(u) && (credentials_of(
                old(self).directory().credential_list(),
                u.id,
            ) matches Some(c) && !argon2_accepts(encode_utf8(password@), c.password_hash@)) ==> r is Err,
            user_by_email(old(self).directory().user_list(), email@) matches Some(u) && (credentials_of(
                old(self).directory().credential_list(),
                u.id,
            ) matches Some(c) && argon2_accepts(encode_utf8(password@), c.password_hash@))
                ==> !(r matches Err(DashboardError::Authentication(_))),
            r matches Ok(resp) ==> user_by_email(old(self).directory().user_list(), email@)
                == Some(resp.user) && (credentials_of(
                old(self).directory().credential_list(),
                resp.user.id,
            ) matches Some(c) && argon2_accepts(encode_utf8(password@), c.password_hash@))
                && resp.token@ == hs256_token(
                decimal_text(resp.user.id as int),
                token_issuer(),
                resp.expires_at as u64,
                (resp.expires_at - old(self).expiration()) as u64,
                old(self).secret(),
            ),
    {
        let user = match self.storage.find_user_by_email(email)? {
            Some(u) => u,
            None => {
                return Err(DashboardError::authentication("Invalid email or password"));
            },
        };
        let credentials = match self.storage.get_credentials(user.id)? {
            Some(c) => c,
            None => {
                return Err(DashboardError::authentication("Credentials not found"));
            },
        };
        match verify_password(password, credentials.password_hash.as_str()) {
            Ok(true) => {},
            Ok(false) => {
                return Err(DashboardError::authentication("Invalid email or password"));
            },
            Err(_) => {
                return Err(DashboardError::internal_server("Password parsing error"));
            },
        }
        let ghost mid = self.storage;
        let session_id = random_id();
        self.storage.create_session(session_id, user.id, ip_address, user_agent, self.jwt_expiration)?;
        self.storage.update_last_active(user.id)?;
        let now = unix_now();
        let expires_at = match now.checked_add(self.jwt_expiration) {
            Some(t) => t,
            None => {
                return Err(DashboardError::internal_server("Token expiry out of range"));
            },
        };
        if now < 0 || expires_at < 0 {
            return Err(DashboardError::internal_server("Token time out of range"));
        }
        let subject = decimal_string(user.id as i128);
        let token = match encode_token(
            subject.as_str(),
            "dashboard_system",
            expires_at as u64,
            now as u64,
            self.jwt_secret.as_str(),
        ) {
            Ok(t) => t,
            Err(_) => {
                return Err(DashboardError::internal_server("Token generation error"));
            },
        };
        Ok(UserLoginResponse { token, user, expires_at })
    }

    /// The user id carried by a valid token. Whether the token is accepted
    /// depends on the clock; the id is read as `user_id_from_subject` does.
    pub fn verify_token(&self, token: &str) -> (r: DashboardResult<i64>)
    {
        match decode_token_subject(token, self.jwt_secret.as_str()) {
            Ok(subject) => Self::user_id_from_subject(subject),
            Err(_) => Err(DashboardError::authentication("Invalid token")),
        }
    }

    /// The user id that a token's subject claim names: a decimal `i64`.
    pub fn user_id_from_subject(subject: Option<String>) -> (r: DashboardResult<i64>)
        ensures
            match subject {
                Some(s) => match signed_text(s@) {
                    Some(v) if i64::MIN <= v <= i64::MAX => r == Ok::<i64, DashboardError>(v as i64),
                    _ => r matches Err(DashboardError::Authentication(m)) && m@
                        == "Invalid user ID in token"@,
                },
                None => r matches Err(DashboardError::Authentication(m)) && m@
                    == "Invalid user ID in token"@,
            },
    {
        match subject {
            Some(s) => match parse_i64(s.as_str()) {
                Some(id) => Ok(id),
                None => Err(DashboardError::authentication("Invalid user ID in token")),
            },
            None => Err(DashboardError::authentication("Invalid user ID in token")),
        }
    }

    /// The user with the given id, or not found.
    pub fn get_user(&self, id: i64) -> (r: DashboardResult<User>)
        requires
            self.directory().wf(),
        ensures
            match user_by_id(self.directory().user_list(), id) {
                Some(u) => r == Ok::<User, DashboardError>(u),
                None => r matches Err(DashboardError::NotFound(m)) && m@ == user_not_found_text(id),
            },
    {
        match self.storage.find_user_by_id(id)? {
            Some(u) => Ok(u),
            None => Err(Self::not_found(id)),
        }
    }

    /// Apply a profile change to an existing user; an email that another
    /// user has is refused.
    pub fn update_user(&mut self, id: i64, update: UpdateUserDto) -> (r: DashboardResult<User>)
        requires
            old(self).directory().wf(),
        ensures
            final(self).directory().wf(),
            user_by_id(old(self).directory().user_list(), id) is None ==> *final(self) == *old(self)
                && (r matches Err(DashboardError::NotFound(m)) && m@ == user_not_found_text(id)),
            user_by_id(old(self).directory().user_list(), id) matches Some(u) ==> match update.email {
                Some(e) if e@ != u.email@ && user_by_email(old(self).directory().user_list(), e@) is Some =>
                    *final(self) == *old(self) && r is Err,
                _ => r == Ok::<User, DashboardError>(updated(u, update)),
            },
    {
        self.get_user(id)?;
        self.storage.update_user(id, update)
    }

    /// Delete an existing user with its keys, credentials and sessions.
    pub fn delete_user(&mut self, id: i64) -> (r: DashboardResult<bool>)
        requires
            old(self).directory().wf(),
            old(self).directory().session_list().len() <= i64::MAX,
        ensures
            final(self).directory().wf(),
            user_by_id(old(self).directory().user_list(), id) is None ==> *final(self) == *old(self)
                && (r matches Err(DashboardError::NotFound(m)) && m@ == user_not_found_text(id)),
            user_by_id(old(self).directory().user_list(), id) is Some ==> r == Ok::<bool, DashboardError>(true)
                && user_by_id(final(self).directory().user_list(), id) is None,
    {
        self.get_user(id)?;
        self.storage.delete_user_sessions(id)?;
        let ghost before = self.storage.user_list();
        proof {
            self.storage.lemma_users_unique();
        }
        let r = self.storage.delete_user(id);
        proof {
            let i = crate::storage::memory::user_index(before, id);
            let after = self.storage.user_list();
            if exists|j: int| 0 <= j < after.len() && after[j].id == id {
                let j = choose|j: int| 0 <= j < after.len() && after[j].id == id;
                let bj = if j < i { j } else { j + 1 };
                assert(after[j] == before[bj]);
            }
        }
        r
    }

    /// Whether a key is 64 hexadecimal digits.
    fn is_valid_ed25519_public_key(public_key: &str) -> (r: bool)
        ensures
            r == ed25519_key_text(public_key@),
    {
        public_key.unicode_len() == 64 && is_hex_text(public_key)
    }

    /// Bind a public key to an existing user; the key must be 64 hex digits.
    pub fn add_public_key(&mut self, user_id: i64, public_key: &str) -> (r: DashboardResult<()>)
        requires
            old(self).directory().wf(),
        ensures
            final(self).directory().wf(),
            user_by_id(old(self).directory().user_list(), user_id) is None ==> *final(self) == *old(
                self,
            ) && r is Err,
            user_by_id(old(self).directory().user_list(), user_id) is Some && !ed25519_key_text(
                public_key@,
            ) ==> *final(self) == *old(self) && (r matches Err(DashboardError::Validation(m)) && m@
                == "Invalid public key format. Expected a 64-character hex string."@),
            user_by_id(old(self).directory().user_list(), user_id) is Some && ed25519_key_text(
                public_key@,
            ) ==> match stored(old(self).directory().bindings(), user_id, public_key@) {
                Some(b) => r is Ok && final(self).directory().bindings() == b,
                None => r is Err && final(self).directory().bindings() == old(self).directory().bindings(),
            },
    {
        self.get_user(user_id)?;
        if !Self::is_valid_ed25519_public_key(public_key) {
            return Err(
                DashboardError::validation(
                    "Invalid public key format. Expected a 64-character hex string.",
                ),
            );
        }
        self.storage.store_public_key(user_id, public_key)
    }

    /// The public keys of an existing user, in the order they were bound.
    pub fn get_public_keys(&self, user_id: i64) -> (r: DashboardResult<Vec<String>>)
        requires
            self.directory().wf(),
        ensures
            user_by_id(self.directory().user_list(), user_id) is None ==> r is Err,
            user_by_id(self.directory().user_list(), user_id) is Some ==> (r matches Ok(v)
                && v@.map_values(|s: String| s@) == keys_of(self.directory().bindings(), user_id)),
    {
        self.get_user(user_id)?;
        self.storage.get_public_keys_for_user(user_id)
    }

    /// Revoke a public key of an existing user.
    pub fn revoke_public_key(&mut self, user_id: i64, public_key: &str) -> (r: DashboardResult<bool>)
        requires
            old(self).directory().wf(),
        ensures
            final(self).directory().wf(),
            user_by_id(old(self).directory().user_list(), user_id) is None ==> r is Err && *final(self)
                == *old(self),
            user_by_id(old(self).directory().user_list(), user_id) is Some ==> match owner(
                old(self).directory().bindings(),
                public_key@,
            ) {
                Some(v) => if v == user_id {
                    r == Ok::<bool, DashboardError>(true) && owner(
                        final(self).directory().bindings(),
                        public_key@,
                    ) is None
                } else {
                    r is Err
                },
                None => r == Ok::<bool, DashboardError>(false),
            },
    {
        self.get_user(user_id)?;
        self.storage.revoke_public_key(user_id, public_key)
    }

    /// The user a public key is bound to.
    pub fn find_user_by_public_key(&self, public_key: &str) -> (r: DashboardResult<Option<User>>)
        requires
            self.directory().wf(),
        ensures
            r == Ok::<Option<User>, DashboardError>(
                match owner(self.directory().bindings(), public_key@) {
                    Some(u) => user_by_id(self.directory().user_list(), u),
                    None => None,
                },
            ),
    {
        self.storage.find_user_by_public_key(public_key)
    }
}

} // verus!
