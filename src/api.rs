use vstd::prelude::*;

use crate::error::{AppError, AppResult};
use crate::id::UserId;
use crate::kernel::{CreateUser, User};

verus! {

/// Whether the `garde` crate's `email` rule accepts the text.
pub uninterp spec fn email_accepted(s: Seq<char>) -> bool;

/// Relies on `garde::rules::email::parse_email`, the check behind garde's `email`
/// rule: it refuses an empty text and one without `@`.
#[verifier::external_body]
fn check_email(s: &str) -> (r: bool)
    ensures
        r == email_accepted(s@),
        s@.len() == 0 ==> !r,
        !s@.contains('@') ==> !r,
{
    garde::rules::email::parse_email(s).is_ok()
}

/// A user as the HTTP layer returns it.
#[derive(Debug)]
pub struct UserResponse {
    pub id: UserId,
    pub name: String,
    pub email: String,
}

impl From<User> for UserResponse {
    fn from(value: User) -> (r: UserResponse) {
        UserResponse { id: value.id, name: value.name, email: value.email }
    }
}

impl vstd::std_specs::convert::FromSpecImpl<User> for UserResponse {
    open spec fn obeys_from_spec() -> bool {
        true
    }

    open spec fn from_spec(v: User) -> UserResponse {
        UserResponse { id: v.id, name: v.name, email: v.email }
    }
}

/// A list of users as the HTTP layer returns it.
#[derive(Debug)]
pub struct UsersResponse {
    pub items: Vec<UserResponse>,
}

impl UsersResponse {
    /// The response that lists `users`, in the same order.
    pub fn from_users(users: Vec<User>) -> (r: UsersResponse)
        ensures
            r.items@.len() == users@.len(),
            forall|i: int|
                0 <= i < users@.len() ==> (#[trigger] r.items@[i]).id == users@[i].id
                    && r.items@[i].name == users@[i].name && r.items@[i].email == users@[i].email,
    {
        let mut items: Vec<UserResponse> = Vec::new();
        let mut i: usize = 0;
        while i < users.len()
            invariant
                i <= users@.len(),
                items@.len() == i,
                forall|j: int|
                    0 <= j < i ==> (#[trigger] items@[j]).id == users@[j].id && items@[j].name
                        == users@[j].name && items@[j].email == users@[j].email,
            decreases users@.len() - i,
        {
            let u = &users[i];
            items.push(UserResponse { id: u.id, name: u.name.clone(), email: u.email.clone() });
            i = i + 1;
        }
        UsersResponse { items }
    }
}

/// A registration request as the HTTP layer receives it.
pub struct CreateUserRequest {
    name: String,
    email: String,
    password: String,
}

impl CreateUserRequest {
    pub fn new(name: String, email: String, password: String) -> (r: CreateUserRequest)
        ensures
            r.name_spec() == name@,
            r.email_spec() == email@,
            r.password_spec() == password@,
    {
        CreateUserRequest { name, email, password }
    }

    pub closed spec fn name_spec(&self) -> Seq<char> {
        self.name@
    }

    pub closed spec fn email_spec(&self) -> Seq<char> {
        self.email@
    }

    pub closed spec fn password_spec(&self) -> Seq<char> {
        self.password@
    }

    /// The request is well formed: a non-empty name, an email that garde accepts and
    /// a non-empty password.
    pub open spec fn valid(&self) -> bool {
        &&& self.name_spec().len() >= 1
        &&& email_accepted(self.email_spec())
        &&& self.password_spec().len() >= 1
    }

    /// Checks the request; a malformed one is a validation error.
    pub fn validate(&self) -> (r: AppResult<()>)
        ensures
            r is Ok <==> self.valid(),
            r matches Err(e) ==> e is ValidationError,
            !self.email_spec().contains('@') ==> r is Err,
            self.email_spec().len() == 0 ==> r is Err,
    {
        let email_ok = check_email(self.email.as_str());
        self.validate_with(email_ok)
    }

    /// Checks the request, given whether garde's `email` rule accepts its email:
    /// the name and the password must not be empty, and the email must be accepted.
    pub fn validate_with(&self, email_ok: bool) -> (r: AppResult<()>)
        ensures
            r is Ok <==> (self.name_spec().len() >= 1 && email_ok && self.password_spec().len()
                >= 1),
            r matches Err(e) ==> e is ValidationError,
    {
        if self.name.as_str().is_empty() {
            return Err(AppError::ValidationError("name: length is lower than 1".to_string()));
        }
        if !email_ok {
            return Err(AppError::ValidationError("email: not a valid email".to_string()));
        }
        if self.password.as_str().is_empty() {
            return Err(AppError::ValidationError("password: length is lower than 1".to_string()));
        }
        Ok(())
    }

    /// The registration the request asks for.
    pub fn into_create_user(self) -> (r: CreateUser)
        ensures
            r.name@ == self.name_spec(),
            r.email@ == self.email_spec(),
            r.password@ == self.password_spec(),
    {
        CreateUser { name: self.name, email: self.email, password: self.password }
    }
}

impl From<CreateUserRequest> for CreateUser {
    fn from(value: CreateUserRequest) -> (r: CreateUser) {
        CreateUser { name: value.name, email: value.email, password: value.password }
    }
}

impl vstd::std_specs::convert::FromSpecImpl<CreateUserRequest> for CreateUser {
    open spec fn obeys_from_spec() -> bool {
        true
    }

    closed spec fn from_spec(v: CreateUserRequest) -> CreateUser {
        CreateUser { name: v.name, email: v.email, password: v.password }
    }
}

} // verus!
