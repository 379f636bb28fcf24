use auth_session::error::AppError;
use auth_session::id::UserId;
use auth_session::kernel::UserCredential;
use auth_session::password::{check_password, hash_password, verify_password};

const KNOWN: &str = "$2b$04$EGdrhbKUv8Oc9vGiXX0HQOxSg445d458Muh7DAHskb6QbtCvdxcie";

#[test]
fn hash_then_verify_round_trips() {
    let digest = hash_password("password123").expect("hash succeeds");
    assert_ne!(digest, "password123");
    assert_eq!(digest.len(), 60);
    assert!(digest.starts_with("$2b$12$"));
    assert!(verify_password("password123", &digest).unwrap());
}

#[test]
fn known_digest_checks() {
    assert!(verify_password("correctbatteryhorsestapler", KNOWN).unwrap());
    assert!(!verify_password("wrong", KNOWN).unwrap());
}

#[test]
fn malformed_digest_is_an_error() {
    let err = verify_password("x", "not-a-digest").expect_err("malformed");
    assert!(matches!(err, AppError::HashPasswordError(_)));
}

#[test]
fn login_outcomes() {
    let cred = || UserCredential {
        id: UserId::from_u128(11),
        email: "a@b.c".to_string(),
        password_hash: KNOWN.to_string(),
    };
    assert_eq!(check_password(Some(cred()), "correctbatteryhorsestapler").unwrap(), UserId::from_u128(11));
    assert!(matches!(check_password(Some(cred()), "wrong"), Err(AppError::Unauthorized(_))));
    assert!(matches!(check_password(None, "x"), Err(AppError::Unauthorized(_))));
    let broken = UserCredential { id: UserId::from_u128(1), email: "e".to_string(), password_hash: "bad".to_string() };
    assert!(matches!(check_password(Some(broken), "x"), Err(AppError::HashPasswordError(_))));
}
