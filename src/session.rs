use vstd::prelude::*;

use crate::cache::{decode_user_id, from, AuthorizationKey, RedisKey};
use crate::credentials::MemoryCredentialStore;
use crate::error::{AppError, AppResult};
use crate::id::{uuid_parse, UserId};
use crate::kernel::{AccessToken, StoreToken, UserCredential};
use crate::token_cache::{MemoryTokenCache, MAX_TTL, TTL_ABSENT};

verus! {

/// The live tokens: each token text with its owner and its remaining seconds.
pub type TokenMap = Map<Seq<char>, (UserId, u64)>;

/// The live tokens after `token` is minted for `user` with `ttl` seconds.
pub open spec fn minted(m: TokenMap, token: Seq<char>, user: UserId, ttl: u64) -> TokenMap {
    m.insert(token, (user, ttl))
}

/// The live tokens after `token` is revoked.
pub open spec fn revoked(m: TokenMap, token: Seq<char>) -> TokenMap {
    m.remove(token)
}

/// Revoking `token` succeeds; otherwise it is `Unauthorized`.
pub open spec fn revocable(m: TokenMap, token: Seq<char>) -> bool {
    m.contains_key(token)
}

/// The user that `token` resolves to, if it is live.
pub open spec fn owner(m: TokenMap, token: Seq<char>) -> Option<UserId> {
    if m.contains_key(token) {
        Some(m[token].0)
    } else {
        None
    }
}

/// The remaining seconds reported for `token`; `TTL_ABSENT` where it is not live.
pub open spec fn remaining(m: TokenMap, token: Seq<char>) -> i64 {
    if m.contains_key(token) {
        m[token].1 as i64
    } else {
        TTL_ABSENT
    }
}

/// The live tokens after `secs` seconds: tokens whose time runs out are gone, the
/// others have that much less time left.
pub open spec fn elapsed_by(m: TokenMap, secs: u64) -> TokenMap {
    Map::new(
        |k: Seq<char>| m.contains_key(k) && m[k].1 > secs,
        |k: Seq<char>| (m[k].0, (m[k].1 - secs) as u64),
    )
}

/// No live token has more time left than `ttl`, nor runs out before a second.
pub open spec fn bounded(m: TokenMap, ttl: u64) -> bool {
    forall|k: Seq<char>| #[trigger] m.contains_key(k) ==> 0 < m[k].1 <= ttl
}

/// The one message of every failed revocation, whatever the reason the token is
/// not live, so that the reply does not tell the reasons apart.
pub open spec fn invalid_token_message() -> Seq<char> {
    "Invalid token"@
}

/// What a revocation that removed `count` cache entries reports.
pub fn token_deleted(count: i64) -> (r: AppResult<()>)
    ensures
        r is Ok <==> count != 0,
        r matches Err(e) ==> e is Unauthorized && e.message_spec() == invalid_token_message(),
{
    if count == 0 {
        let m = "Invalid token".to_string();
        proof {
            reveal_strlit("Invalid token");
        }
        return Err(AppError::Unauthorized(m));
    }
    Ok(())
}

/// Resolves credentials and access tokens: it authenticates by email, mints tokens
/// that expire after a fixed time and revokes them.
pub struct SessionService {
    credentials: MemoryCredentialStore,
    kv_store: MemoryTokenCache,
    ttl: u64,
}

impl View for SessionService {
    type V = TokenMap;

    closed spec fn view(&self) -> TokenMap {
        Map::new(
            |k: Seq<char>| self.kv_store@.contains_key(k),
            |k: Seq<char>|
                (UserId { value: uuid_parse(self.kv_store@[k].0)->Some_0 }, self.kv_store@[k].1),
        )
    }
}

impl SessionService {
    /// The accounts known to the service, by email.
    pub closed spec fn accounts(&self) -> Map<Seq<char>, (UserId, Seq<char>)> {
        self.credentials@
    }

    /// The time to live that every token is minted with.
    pub closed spec fn token_ttl(&self) -> u64 {
        self.ttl
    }

    pub closed spec fn wf(&self) -> bool {
        &&& self.credentials.wf()
        &&& self.kv_store.wf()
        &&& forall|k: Seq<char>| #[trigger]
            self.kv_store@.contains_key(k) ==> uuid_parse(self.kv_store@[k].0) is Some
        &&& bounded(self@, self.ttl)
    }

    /// A service over `credentials` with no live token, minting tokens for `ttl` seconds.
    pub fn new(credentials: MemoryCredentialStore, ttl: u64) -> (r: SessionService)
        requires
            credentials.wf(),
        ensures
            r.wf(),
            r@ == TokenMap::empty(),
            r.accounts() == credentials@,
            r.token_ttl() == ttl,
    {
        let r = SessionService { credentials, kv_store: MemoryTokenCache::new(), ttl };
        assert(r@ =~= TokenMap::empty());
        r
    }

    /// The credential registered under exactly `email`; an unknown email gives
    /// `None`, not an error.
    pub fn authenticate(&self, email: String) -> (r: AppResult<Option<UserCredential>>)
        requires
            self.wf(),
        ensures
            r matches Ok(found) && match found {
                None => !self.accounts().contains_key(email@),
                Some(c) => self.accounts().contains_key(email@) && c.email@ == email@ && c.id
                    == self.accounts()[email@].0 && c.password_hash@
                    == self.accounts()[email@].1,
            },
    {
        self.credentials.find_by_email(&email)
    }

    /// Mints the token of `event` for its user, for the configured time to live, and
    /// hands the same token back. A token already live is replaced; other tokens of
    /// the same user stay live. The cache refuses a time to live of zero or above `MAX_TTL`.
    pub fn store_token(&mut self, event: StoreToken) -> (r: AppResult<AccessToken>)
        requires
            old(self).wf(),
        ensures
            final(self).wf(),
            final(self).accounts() == old(self).accounts(),
            final(self).token_ttl() == old(self).token_ttl(),
            r is Ok <==> 0 < old(self).token_ttl() <= MAX_TTL,
            r matches Ok(t) ==> t == event.access_token && final(self)@ == minted(
                old(self)@,
                event.access_token.0@,
                event.user_id,
                old(self).token_ttl(),
            ),
            r matches Err(e) ==> final(self)@ == old(self)@ && e is KeyValueStoreError,
    {
        let ghost old_view = self@;
        let ghost token = event.access_token.0@;
        let ghost user = event.user_id;
        let (key, value) = from(event);
        let text = value.to_text();
        match self.kv_store.set_ex(key.inner(), text, self.ttl) {
            Ok(()) => {
                assert(self@ =~= minted(old_view, token, user, self.ttl));
                Ok(AccessToken::from(key))
            },
            Err(e) => {
                assert(self@ =~= old_view);
                Err(e)
            },
        }
    }

    /// Revokes `access_token`. A token that was never minted, is already revoked or
    /// has expired is `Unauthorized`, the same error in each case.
    pub fn delete_token(&mut self, access_token: AccessToken) -> (r: AppResult<()>)
        requires
            old(self).wf(),
        ensures
            final(self).wf(),
            final(self).accounts() == old(self).accounts(),
            final(self).token_ttl() == old(self).token_ttl(),
            final(self)@ == revoked(old(self)@, access_token.0@),
            r is Ok <==> revocable(old(self)@, access_token.0@),
            r matches Err(e) ==> e is Unauthorized && e.message_spec() == invalid_token_message(),
    {
        let ghost old_view = self@;
        let ghost token = access_token.0@;
        let key = AuthorizationKey::from(access_token);
        let deleted_count = self.kv_store.delete(&key.inner());
        assert(self@ =~= revoked(old_view, token));
        token_deleted(deleted_count)
    }

    /// The user that `access_token` resolves to, or `None` where it is not live.
    pub fn get(&self, access_token: &AccessToken) -> (r: AppResult<Option<UserId>>)
        requires
            self.wf(),
        ensures
            r == Ok::<Option<UserId>, AppError>(owner(self@, access_token.0@)),
    {
        let stored = self.kv_store.get(&access_token.0);
        match decode_user_id(stored) {
            Ok(Some(v)) => Ok(Some(v.0)),
            Ok(None) => Ok(None),
            Err(e) => Err(e),
        }
    }

    /// The remaining seconds of `access_token`, or `TTL_ABSENT` where it is not live.
    pub fn ttl(&self, access_token: &AccessToken) -> (r: i64)
        requires
            self.wf(),
        ensures
            r == remaining(self@, access_token.0@),
            self@.contains_key(access_token.0@) ==> r > 0,
    {
        self.kv_store.ttl(&access_token.0)
    }

    /// Lets `elapsed` seconds pass; tokens whose time runs out expire.
    pub fn expire(&mut self, elapsed: u64)
        requires
            old(self).wf(),
        ensures
            final(self).wf(),
            final(self).accounts() == old(self).accounts(),
            final(self).token_ttl() == old(self).token_ttl(),
            final(self)@ == elapsed_by(old(self)@, elapsed),
    {
        let ghost old_view = self@;
        self.kv_store.expire(elapsed);
        assert(self@ =~= elapsed_by(old_view, elapsed));
    }
}

/// Every live token keeps a remaining time to live above zero and at most the
/// configured one.
pub proof fn lemma_ttl_bounded(s: &SessionService)
    requires
        s.wf(),
    ensures
        bounded(s@, s.token_ttl()),
{
}

/// A token whose time has run out is gone: it resolves to nothing, its revocation is
/// `Unauthorized` and its remaining time is reported as `TTL_ABSENT`.
pub proof fn lemma_expired_is_absent(m: TokenMap, token: Seq<char>, secs: u64)
    requires
        m.contains_key(token) ==> m[token].1 <= secs,
    ensures
        owner(elapsed_by(m, secs), token) is None,
        !revocable(elapsed_by(m, secs), token),
        remaining(elapsed_by(m, secs), token) == TTL_ABSENT,
{
}

/// A token just minted resolves to its user, with a remaining time to live above
/// zero and at most the configured one.
pub proof fn lemma_store_then_get(m: TokenMap, token: Seq<char>, user: UserId, ttl: u64)
    requires
        0 < ttl <= MAX_TTL,
    ensures
        owner(minted(m, token, user, ttl), token) == Some(user),
        0 < remaining(minted(m, token, user, ttl), token) <= ttl,
{
}

/// Revoking a token that is not live is `Unauthorized`.
pub proof fn lemma_delete_unknown(m: TokenMap, token: Seq<char>)
    requires
        !m.contains_key(token),
    ensures
        !revocable(m, token),
{
}

/// Revocation is single-shot: after minting, the first revocation succeeds and a
/// second one is `Unauthorized`.
pub proof fn lemma_delete_once(m: TokenMap, token: Seq<char>, user: UserId, ttl: u64)
    ensures
        revocable(minted(m, token, user, ttl), token),
        !revocable(revoked(minted(m, token, user, ttl), token), token),
{
}

/// After a successful revocation the token resolves to nothing and its remaining
/// time is reported as `TTL_ABSENT`.
pub proof fn lemma_deleted_is_absent(m: TokenMap, token: Seq<char>)
    requires
        revocable(m, token),
    ensures
        owner(revoked(m, token), token) is None,
        remaining(revoked(m, token), token) == TTL_ABSENT,
{
}

} // verus!
