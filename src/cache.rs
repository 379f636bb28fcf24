use vstd::prelude::*;

use crate::error::{AppError, AppResult};
use crate::id::{uuid_parse, UserId};
use crate::kernel::{AccessToken, StoreToken};

verus! {

/// A key of the key/value cache, and the type of value stored under it.
pub trait RedisKey {
    type Value: RedisValue;

    /// The text the key is stored under.
    spec fn key_text(&self) -> Seq<char>;

    fn inner(&self) -> (r: String)
        ensures
            r@ == self.key_text(),
    ;
}

/// A value of the key/value cache, stored as text.
pub trait RedisValue {
    /// The text the value is stored as.
    spec fn value_text(&self) -> Seq<char>;

    fn inner(&self) -> (r: String)
        ensures
            r@ == self.value_text(),
    ;
}

/// The cache key of an access token.
pub struct AuthorizationKey(pub AccessToken);

/// The cache value of an access token: the user it belongs to.
pub struct AuthorizationUserId(pub UserId);

/// Splits a request to record a token into its cache key and cache value.
pub fn from(event: StoreToken) -> (r: (AuthorizationKey, AuthorizationUserId))
    ensures
        r.0.0 == event.access_token,
        r.1.0 == event.user_id,
{
    (AuthorizationKey(event.access_token), AuthorizationUserId(event.user_id))
}

impl From<AuthorizationKey> for AccessToken {
    fn from(key: AuthorizationKey) -> (r: AccessToken) {
        key.0
    }
}

impl vstd::std_specs::convert::FromSpecImpl<AuthorizationKey> for AccessToken {
    open spec fn obeys_from_spec() -> bool {
        true
    }

    open spec fn from_spec(v: AuthorizationKey) -> AccessToken {
        v.0
    }
}

impl From<AccessToken> for AuthorizationKey {
    fn from(token: AccessToken) -> (r: AuthorizationKey) {
        AuthorizationKey(token)
    }
}

impl vstd::std_specs::convert::FromSpecImpl<AccessToken> for AuthorizationKey {
    open spec fn obeys_from_spec() -> bool {
        true
    }

    open spec fn from_spec(v: AccessToken) -> AuthorizationKey {
        AuthorizationKey(v)
    }
}

impl RedisKey for AuthorizationKey {
    type Value = AuthorizationUserId;

    open spec fn key_text(&self) -> Seq<char> {
        self.0.0@
    }

    fn inner(&self) -> (r: String) {
        self.0.0.clone()
    }
}

impl RedisValue for AuthorizationUserId {
    open spec fn value_text(&self) -> Seq<char> {
        crate::id::uuid_text(self.0.value)
    }

    fn inner(&self) -> (r: String) {
        self.0.to_string()
    }
}

impl AuthorizationUserId {
    /// The text the value is stored as, which reads back to the same user.
    pub fn to_text(&self) -> (r: String)
        ensures
            r@ == self.value_text(),
            uuid_parse(r@) == Some(self.0.value),
    {
        self.0.to_string()
    }

    /// Reads a cached value back into the user it names; a text that is not an
    /// identifier is a conversion error.
    pub fn try_from_text(s: String) -> (r: AppResult<AuthorizationUserId>)
        ensures
            match r {
                Ok(v) => uuid_parse(s@) == Some(v.0.value),
                Err(e) => uuid_parse(s@) is None && e is ConversionEntityError,
            },
    {
        match UserId::parse_str(s.as_str()) {
            Ok(id) => Ok(AuthorizationUserId(id)),
            Err(m) => Err(AppError::ConversionEntityError(m)),
        }
    }
}

/// What a read of the cache yields for the stored text `stored`: nothing for an
/// absent key, the user for a well-formed value, a conversion error otherwise.
pub open spec fn decoded(stored: Option<Seq<char>>) -> Option<Option<u128>> {
    match stored {
        None => Some(None),
        Some(s) => match uuid_parse(s) {
            Some(v) => Some(Some(v)),
            None => None,
        },
    }
}

/// Turns the text read from the cache into the typed value stored there.
pub fn decode_user_id(stored: Option<String>) -> (r: AppResult<Option<AuthorizationUserId>>)
    ensures
        match decoded(match stored { Some(s) => Some(s@), None => None }) {
            Some(Some(v)) => r matches Ok(Some(u)) && u.0.value == v,
            Some(None) => r matches Ok(None),
            None => r matches Err(AppError::ConversionEntityError(_)),
        },
{
    match stored {
        None => Ok(None),
        Some(s) => match AuthorizationUserId::try_from_text(s) {
            Ok(v) => Ok(Some(v)),
            Err(e) => Err(e),
        },
    }
}

} // verus!
