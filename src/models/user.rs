use vstd::prelude::*;
use crate::crypto::unix_now;

verus! {

/// A user of the system. Times are in seconds since the Unix epoch.
#[derive(Debug, Clone)]
pub struct User {
    /// Unique identifier
    pub id: i64,
    /// Email address, unique among users
    pub email: String,
    /// Display name
    pub username: String,
    /// Optional wallet address
    pub wallet_address: Option<String>,
    pub created_at: i64,
    pub last_active: i64,
}

/// A user's password credentials.
#[derive(Debug, Clone)]
pub struct UserCredentials {
    pub user_id: i64,
    pub password_hash: String,
    pub salt: String,
    pub updated_at: i64,
}

/// Data needed to create a new user.
#[derive(Debug, Clone)]
pub struct CreateUserDto {
    pub email: String,
    pub username: String,
    /// Plain-text password, to be hashed
    pub password: String,
    pub wallet_address: Option<String>,
}

/// Changes to a user's profile; `None` leaves a field as it is.
#[derive(Debug, Clone)]
pub struct UpdateUserDto {
    pub username: Option<String>,
    pub email: Option<String>,
    pub wallet_address: Option<String>,
}

/// A login session.
#[derive(Debug, Clone)]
pub struct UserSession {
    pub id: String,
    pub user_id: i64,
    pub created_at: i64,
    pub expires_at: i64,
    pub ip_address: String,
    pub user_agent: String,
}

/// Answer to a successful login.
#[derive(Debug, Clone)]
pub struct UserLoginResponse {
    pub token: String,
    pub user: User,
    pub expires_at: i64,
}

/// A copy of an optional string.
pub fn copy_opt_string(s: &Option<String>) -> (r: Option<String>)
    ensures
        r == *s,
{
    match s {
        Some(v) => Some(v.clone()),
        None => None,
    }
}

impl User {
    /// A user not yet stored: id 0, created and active now.
    pub fn new(email: String, username: String, wallet_address: Option<String>) -> (r: Self)
        ensures
            r.id == 0,
            r.email == email,
            r.username == username,
            r.wallet_address == wallet_address,
            r.created_at == r.last_active,
    {
        let now = unix_now();
        User { id: 0, email, username, wallet_address, created_at: now, last_active: now }
    }

    /// A field-by-field copy.
    pub fn copied(&self) -> (r: Self)
        ensures
            r == *self,
    {
        User {
            id: self.id,
            email: self.email.clone(),
            username: self.username.clone(),
            wallet_address: copy_opt_string(&self.wallet_address),
            created_at: self.created_at,
            last_active: self.last_active,
        }
    }
}

impl UserCredentials {
    /// A field-by-field copy.
    pub fn copied(&self) -> (r: Self)
        ensures
            r == *self,
    {
        UserCredentials {
            user_id: self.user_id,
            password_hash: self.password_hash.clone(),
            salt: self.salt.clone(),
            updated_at: self.updated_at,
        }
    }
}

impl UserSession {
    /// A field-by-field copy.
    pub fn copied(&self) -> (r: Self)
        ensures
            r == *self,
    {
        UserSession {
            id: self.id.clone(),
            user_id: self.user_id,
            created_at: self.created_at,
            expires_at: self.expires_at,
            ip_address: self.ip_address.clone(),
            user_agent: self.user_agent.clone(),
        }
    }
}

} // verus!
