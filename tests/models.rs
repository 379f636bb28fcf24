use auth_session::api::{CreateUserRequest, UserResponse, UsersResponse};
use auth_session::cache::{decode_user_id, from, AuthorizationKey, AuthorizationUserId, RedisKey, RedisValue};
use auth_session::database::{UserCredentialRow, UserRow};
use auth_session::error::AppError;
use auth_session::id::UserId;
use auth_session::kernel::{AccessToken, CreateUser, StoreToken, User};
use auth_session::users::{created_user, credential_from_row, deleted_user, user_from_row, users_from_rows};

const SAMPLE: u128 = 0x67e5_5044_10b1_426f_9247_bb68_0e5f_e0c8;
const SAMPLE_TEXT: &str = "67e55044-10b1-426f-9247-bb680e5fe0c8";

#[test]
fn user_id_text_round_trips() {
    let id = UserId::from_u128(SAMPLE);
    assert_eq!(id.to_string(), SAMPLE_TEXT);
    assert_eq!(UserId::parse_str(SAMPLE_TEXT).unwrap(), id);
    assert!(UserId::parse_str("not-a-uuid").is_err());
    assert!(UserId::parse_str("").is_err());
}

#[test]
fn cache_key_and_value_texts() {
    let (key, value) = from(StoreToken {
        user_id: UserId::from_u128(SAMPLE),
        access_token: AccessToken("tok".to_string()),
    });
    assert_eq!(RedisKey::inner(&key), "tok");
    assert_eq!(RedisValue::inner(&value), SAMPLE_TEXT);
    assert_eq!(value.to_text(), SAMPLE_TEXT);
    let back: AccessToken = key.into();
    assert_eq!(back, AccessToken("tok".to_string()));
    let key2: AuthorizationKey = AccessToken("x".to_string()).into();
    assert_eq!(RedisKey::inner(&key2), "x");
}

#[test]
fn stored_value_decodes_back() {
    let v = decode_user_id(Some(SAMPLE_TEXT.to_string())).unwrap().unwrap();
    assert_eq!(v.0, UserId::from_u128(SAMPLE));
    assert!(decode_user_id(None).unwrap().is_none());
    let err = decode_user_id(Some("garbage".to_string())).err().unwrap();
    assert!(matches!(err, AppError::ConversionEntityError(_)));
    assert!(AuthorizationUserId::try_from_text(SAMPLE_TEXT.to_string()).is_ok());
}

#[test]
fn status_codes_by_kind() {
    let m = || "m".to_string();
    assert_eq!(AppError::EntityNotFoundError(m()).status_code(), 404);
    assert_eq!(AppError::Unauthorized(m()).status_code(), 401);
    assert_eq!(AppError::ValidationError(m()).status_code(), 400);
    assert_eq!(AppError::ConvertToUuidError(m()).status_code(), 400);
    assert_eq!(AppError::ConversionEntityError(m()).status_code(), 500);
    assert_eq!(AppError::HashPasswordError(m()).status_code(), 500);
    assert_eq!(AppError::SqlExecuteError(m()).status_code(), 500);
    assert_eq!(AppError::NoRowsAffectedError(m()).status_code(), 500);
    assert_eq!(AppError::KeyValueStoreError(m()).status_code(), 500);
    assert_eq!(AppError::Unauthorized("Invalid token".to_string()).message(), "Invalid token");
}

#[test]
fn credential_row_lookup() {
    assert!(credential_from_row(None).unwrap().is_none());
    let c = credential_from_row(Some(UserCredentialRow {
        id: UserId::from_u128(3),
        email: "a@b.c".to_string(),
        password_hash: "h".to_string(),
    }))
    .unwrap()
    .unwrap();
    assert_eq!(c.id, UserId::from_u128(3));
    assert_eq!(c.email, "a@b.c");
    assert_eq!(c.password_hash, "h");
}

fn row(n: u128, name: &str, email: &str) -> UserRow {
    UserRow {
        id: UserId::from_u128(n),
        name: name.to_string(),
        email: email.to_string(),
        created_at: 0,
        updated_at: 0,
    }
}

#[test]
fn user_rows_become_users() {
    assert!(user_from_row(None).unwrap().is_none());
    let u = user_from_row(Some(row(1, "Alice", "alice@example.com"))).unwrap().unwrap();
    assert_eq!(u.name, "Alice");
    let rows = vec![row(1, "Alice", "alice@example.com"), row(2, "Bob", "bob@example.com")];
    let users = users_from_rows(&rows);
    assert_eq!(users.len(), 2);
    assert_eq!(users[1].email, "bob@example.com");
    let body = UsersResponse::from_users(users);
    assert_eq!(body.items.len(), 2);
    assert_eq!(body.items[0].name, "Alice");
    assert_eq!(body.items[0].email, "alice@example.com");
    assert_eq!(body.items[1].name, "Bob");
    assert_eq!(body.items[1].email, "bob@example.com");
}

#[test]
fn user_creation_and_deletion_outcomes() {
    let event = || CreateUser {
        name: "Alice".to_string(),
        email: "alice@example.com".to_string(),
        password: "password123".to_string(),
    };
    let u = created_user(UserId::from_u128(4), event(), 1).unwrap();
    assert_eq!(u.id, UserId::from_u128(4));
    assert_eq!(u.name, "Alice");
    assert!(matches!(created_user(UserId::from_u128(4), event(), 0), Err(AppError::NoRowsAffectedError(_))));
    assert!(deleted_user(1).is_ok());
    assert!(matches!(deleted_user(0), Err(AppError::EntityNotFoundError(_))));
}

#[test]
fn user_response_copies_fields() {
    let r = UserResponse::from(User {
        id: UserId::from_u128(8),
        name: "Alice".to_string(),
        email: "alice@example.com".to_string(),
    });
    assert_eq!(r.name, "Alice");
    assert_eq!(r.email, "alice@example.com");
}

#[test]
fn request_validation() {
    let req = |n: &str, e: &str, p: &str| CreateUserRequest::new(n.to_string(), e.to_string(), p.to_string());
    assert!(req("Alice", "alice@example.com", "password123").validate().is_ok());
    assert!(matches!(req("Alice", "invalid-email", "password123").validate(), Err(AppError::ValidationError(_))));
    assert!(matches!(req("", "alice@example.com", "password123").validate(), Err(AppError::ValidationError(_))));
    assert!(matches!(req("Alice", "alice@example.com", "").validate(), Err(AppError::ValidationError(_))));
    assert!(req("Alice", "anything", "pw").validate_with(true).is_ok());
    assert!(matches!(req("Alice", "alice@example.com", "pw").validate_with(false), Err(AppError::ValidationError(_))));
    assert!(matches!(req("", "alice@example.com", "pw").validate_with(true), Err(AppError::ValidationError(_))));
    assert!(matches!(req("Alice", "alice@example.com", "").validate_with(true), Err(AppError::ValidationError(_))));
    let event: CreateUser = req("Alice", "alice@example.com", "pw").into();
    assert_eq!(event.name, "Alice");
    assert_eq!(event.email, "alice@example.com");
    assert_eq!(event.password, "pw");
}
