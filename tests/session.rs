use auth_session::credentials::MemoryCredentialStore;
use auth_session::database::UserCredentialRow;
use auth_session::error::AppError;
use auth_session::id::UserId;
use auth_session::kernel::{AccessToken, StoreToken};
use auth_session::session::{token_deleted, SessionService};
use auth_session::token_cache::{MemoryTokenCache, TTL_ABSENT};

fn service(ttl: u64) -> SessionService {
    SessionService::new(MemoryCredentialStore::new(), ttl)
}

fn mint(s: &mut SessionService, user: UserId, token: &str) -> Result<AccessToken, AppError> {
    s.store_token(StoreToken { user_id: user, access_token: AccessToken(token.to_string()) })
}

#[test]
fn stored_token_resolves_to_its_user() {
    let mut s = service(3600);
    let user = UserId::from_u128(42);
    let stored = mint(&mut s, user, "test-token-1").expect("store succeeds");
    assert_eq!(stored, AccessToken("test-token-1".to_string()));
    let token = AccessToken("test-token-1".to_string());
    assert_eq!(s.get(&token).expect("get succeeds"), Some(user));
    let ttl = s.ttl(&token);
    assert!(ttl > 0);
    assert!(ttl <= 3600);
}

#[test]
fn unknown_token_cannot_be_deleted() {
    let mut s = service(3600);
    let err = s.delete_token(AccessToken("test-token-never".to_string())).expect_err("fails");
    assert!(matches!(err, AppError::Unauthorized(_)));
}

#[test]
fn token_can_be_deleted_once() {
    let mut s = service(3600);
    let user = UserId::from_u128(7);
    mint(&mut s, user, "test-token-2").expect("store succeeds");
    let token = AccessToken("test-token-2".to_string());
    assert!(s.get(&token).expect("get succeeds").is_some());
    s.delete_token(token.clone()).expect("first delete succeeds");
    assert_eq!(s.get(&token).expect("get succeeds"), None);
    assert_eq!(s.ttl(&token), -2);
    let err = s.delete_token(token).expect_err("second delete fails");
    assert!(matches!(err, AppError::Unauthorized(_)));
    let unknown = s.delete_token(AccessToken("never-minted".to_string())).expect_err("fails");
    assert_eq!(err.message(), "Invalid token");
    assert_eq!(unknown.message(), err.message());
}

#[test]
fn scenario_mint_resolve_revoke() {
    let mut s = service(3600);
    let u1 = UserId::from_u128(0x67e5_5044_10b1_426f_9247_bb68_0e5f_e0c8);
    mint(&mut s, u1, "tok-123").expect("store succeeds");
    let token = AccessToken("tok-123".to_string());
    assert_eq!(s.get(&token).unwrap(), Some(u1));
    let ttl = s.ttl(&token);
    assert!(ttl > 0 && ttl <= 3600);
    assert!(s.delete_token(token.clone()).is_ok());
    assert_eq!(s.get(&token).unwrap(), None);
    assert!(matches!(s.delete_token(token), Err(AppError::Unauthorized(_))));
}

#[test]
fn same_user_may_hold_several_tokens() {
    let mut s = service(60);
    let user = UserId::from_u128(1);
    mint(&mut s, user, "a").unwrap();
    mint(&mut s, user, "b").unwrap();
    assert_eq!(s.get(&AccessToken("a".to_string())).unwrap(), Some(user));
    assert_eq!(s.get(&AccessToken("b".to_string())).unwrap(), Some(user));
}

#[test]
fn reminting_a_token_replaces_its_owner() {
    let mut s = service(60);
    mint(&mut s, UserId::from_u128(1), "t").unwrap();
    mint(&mut s, UserId::from_u128(2), "t").unwrap();
    assert_eq!(s.get(&AccessToken("t".to_string())).unwrap(), Some(UserId::from_u128(2)));
    assert!(s.delete_token(AccessToken("t".to_string())).is_ok());
    assert!(s.delete_token(AccessToken("t".to_string())).is_err());
}

#[test]
fn zero_ttl_is_refused_by_the_cache() {
    let mut s = service(0);
    let err = mint(&mut s, UserId::from_u128(1), "t").expect_err("refused");
    assert!(matches!(err, AppError::KeyValueStoreError(_)));
    assert_eq!(s.get(&AccessToken("t".to_string())).unwrap(), None);
}

#[test]
fn tokens_expire_after_their_ttl() {
    let mut s = service(100);
    let user = UserId::from_u128(9);
    mint(&mut s, user, "t").unwrap();
    let token = AccessToken("t".to_string());
    s.expire(40);
    assert_eq!(s.ttl(&token), 60);
    assert_eq!(s.get(&token).unwrap(), Some(user));
    s.expire(60);
    assert_eq!(s.ttl(&token), -2);
    assert_eq!(s.get(&token).unwrap(), None);
    assert!(matches!(s.delete_token(token), Err(AppError::Unauthorized(_))));
}

#[test]
fn authenticate_finds_credential_by_email() {
    let mut store = MemoryCredentialStore::new();
    let id = UserId::from_u128(5);
    store
        .insert(UserCredentialRow {
            id,
            email: "alice@example.com".to_string(),
            password_hash: "digest".to_string(),
        })
        .unwrap();
    let s = SessionService::new(store, 60);
    let c = s.authenticate("alice@example.com".to_string()).unwrap().expect("present");
    assert_eq!(c.id, id);
    assert_eq!(c.email, "alice@example.com");
    assert_eq!(c.password_hash, "digest");
}

#[test]
fn authenticate_unknown_email_is_none() {
    let s = service(60);
    let result = s.authenticate("not-found@example.com".to_string()).expect("no error");
    assert!(result.is_none());
}

#[test]
fn duplicate_email_is_refused() {
    let mut store = MemoryCredentialStore::new();
    let row = |n: u128| UserCredentialRow {
        id: UserId::from_u128(n),
        email: "alice@example.com".to_string(),
        password_hash: "h".to_string(),
    };
    assert!(store.insert(row(1)).is_ok());
    assert!(matches!(store.insert(row(2)), Err(AppError::SqlExecuteError(_))));
}

#[test]
fn deleted_count_decides_revocation() {
    assert!(token_deleted(1).is_ok());
    assert!(matches!(token_deleted(0), Err(AppError::Unauthorized(_))));
}

#[test]
fn memory_cache_reports_sentinels() {
    let mut c = MemoryTokenCache::new();
    let key = "k".to_string();
    assert_eq!(c.ttl(&key), TTL_ABSENT);
    assert!(c.set_ex(key.clone(), "v".to_string(), 10).is_ok());
    assert_eq!(c.get(&key), Some("v".to_string()));
    assert_eq!(c.ttl(&key), 10);
    assert!(c.set_ex(key.clone(), "w".to_string(), 20).is_ok());
    assert_eq!(c.get(&key), Some("w".to_string()));
    assert_eq!(c.ttl(&key), 20);
    assert_eq!(c.delete(&key), 1);
    assert_eq!(c.delete(&key), 0);
    assert_eq!(c.get(&key), None);
    assert!(matches!(c.set_ex(key, "v".to_string(), 0), Err(AppError::KeyValueStoreError(_))));
}
