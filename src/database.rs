use vstd::prelude::*;

use crate::cache::{RedisKey, RedisValue};
use crate::error::AppResult;
use crate::id::UserId;
use crate::kernel::{AccessToken, StoreToken, User, UserCredential};

verus! {

/// A row of the credential query: identity, email and password digest.
pub struct UserCredentialRow {
    pub id: UserId,
    pub email: String,
    pub password_hash: String,
}

impl UserCredential {
    /// The credential a row describes.
    pub fn try_from(value: UserCredentialRow) -> (r: AppResult<UserCredential>)
        ensures
            r matches Ok(c) && c.id == value.id && c.email == value.email
                && c.password_hash == value.password_hash,
    {
        Ok(UserCredential { id: value.id, email: value.email, password_hash: value.password_hash })
    }
}

/// A row of the user query; the two timestamps are seconds since the Unix epoch.
pub struct UserRow {
    pub id: UserId,
    pub name: String,
    pub email: String,
    pub created_at: i64,
    pub updated_at: i64,
}

impl User {
    /// The user a row describes.
    pub fn try_from(value: UserRow) -> (r: AppResult<User>)
        ensures
            r matches Ok(u) && u.id == value.id && u.name == value.name && u.email == value.email,
    {
        Ok(User { id: value.id, name: value.name, email: value.email })
    }
}

/// The cache key of an access token, held as its text.
pub struct AuthorizationKey(pub String);

/// The cache value of an access token: the user it belongs to.
pub struct AuthorizationUserId(pub UserId);

/// Splits a request to record a token into its cache key and cache value.
pub fn from(event: StoreToken) -> (r: (AuthorizationKey, AuthorizationUserId))
    ensures
        r.0.0 == event.access_token.0,
        r.1.0 == event.user_id,
{
    (AuthorizationKey(event.access_token.0), AuthorizationUserId(event.user_id))
}

impl From<AuthorizationKey> for AccessToken {
    fn from(key: AuthorizationKey) -> (r: AccessToken) {
        AccessToken(key.0)
    }
}

impl vstd::std_specs::convert::FromSpecImpl<AuthorizationKey> for AccessToken {
    open spec fn obeys_from_spec() -> bool {
        true
    }

    open spec fn from_spec(v: AuthorizationKey) -> AccessToken {
        AccessToken(v.0)
    }
}

impl RedisKey for AuthorizationKey {
    type Value = crate::cache::AuthorizationUserId;

    open spec fn key_text(&self) -> Seq<char> {
        self.0@
    }

    fn inner(&self) -> (r: String) {
        self.0.clone()
    }
}

impl RedisValue for AuthorizationUserId {
    open spec fn value_text(&self) -> Seq<char> {
        crate::id::uuid_text(self.0.value)
    }

    fn inner(&self) -> (r: String) {
        self.0.to_string()
    }
}

impl AuthorizationUserId {
    /// Reads a cached value back into the user it names.
    pub fn try_from_text(s: String) -> (r: AppResult<AuthorizationUserId>)
        ensures
            match r {
                Ok(v) => crate::id::uuid_parse(s@) == Some(v.0.value),
                Err(e) => crate::id::uuid_parse(s@) is None && e is ConversionEntityError,
            },
    {
        match crate::cache::AuthorizationUserId::try_from_text(s) {
            Ok(v) => Ok(AuthorizationUserId(v.0)),
            Err(e) => Err(e),
        }
    }
}

} // verus!
