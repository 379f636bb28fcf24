use vstd::prelude::*;

use crate::id::UserId;

verus! {

/// An opaque, unguessable token that stands for a session of one user.
#[derive(Debug, Clone, PartialEq)]
pub struct AccessToken(pub String);

/// What the credential store holds of an account.
#[derive(Debug)]
pub struct UserCredential {
    pub id: UserId,
    pub email: String,
    pub password_hash: String,
}

/// A request to record a token for a user.
pub struct StoreToken {
    pub user_id: UserId,
    pub access_token: AccessToken,
}

/// An account as the rest of the system sees it.
#[derive(Debug)]
pub struct User {
    pub id: UserId,
    pub name: String,
    pub email: String,
}

/// A request to register an account.
pub struct CreateUser {
    pub name: String,
    pub email: String,
    pub password: String,
}

/// A request to remove an account.
pub struct DeleteUser {
    pub id: UserId,
}

} // verus!
