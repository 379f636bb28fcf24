use vstd::prelude::*;

use crate::database::{UserCredentialRow, UserRow};
use crate::error::{AppError, AppResult};
use crate::id::UserId;
use crate::kernel::{CreateUser, User, UserCredential};

verus! {

/// What a credential lookup that found `row` returns: the credential, or `None`
/// where no account has the email.
pub fn credential_from_row(row: Option<UserCredentialRow>) -> (r: AppResult<Option<UserCredential>>)
    ensures
        match row {
            None => r matches Ok(None),
            Some(w) => r matches Ok(Some(c)) && c.id == w.id && c.email == w.email
                && c.password_hash == w.password_hash,
        },
{
    match row {
        Some(row) => match UserCredential::try_from(row) {
            Ok(c) => Ok(Some(c)),
            Err(e) => Err(e),
        },
        None => Ok(None),
    }
}

/// What a lookup of a user by identity that found `row` returns.
pub fn user_from_row(row: Option<UserRow>) -> (r: AppResult<Option<User>>)
    ensures
        match row {
            None => r matches Ok(None),
            Some(w) => r matches Ok(Some(u)) && u.id == w.id && u.name == w.name && u.email
                == w.email,
        },
{
    match row {
        Some(row) => match User::try_from(row) {
            Ok(u) => Ok(Some(u)),
            Err(e) => Err(e),
        },
        None => Ok(None),
    }
}

/// The users that `rows` describe, in the same order.
pub fn users_from_rows(rows: &Vec<UserRow>) -> (r: Vec<User>)
    ensures
        r@.len() == rows@.len(),
        forall|i: int|
            0 <= i < rows@.len() ==> (#[trigger] r@[i]).id == rows@[i].id && r@[i].name
                == rows@[i].name && r@[i].email == rows@[i].email,
{
    let mut out: Vec<User> = Vec::new();
    let mut i: usize = 0;
    while i < rows.len()
        invariant
            i <= rows@.len(),
            out@.len() == i,
            forall|j: int|
                0 <= j < i ==> (#[trigger] out@[j]).id == rows@[j].id && out@[j].name
                    == rows@[j].name && out@[j].email == rows@[j].email,
        decreases rows@.len() - i,
    {
        let row = &rows[i];
        out.push(User { id: row.id, name: row.name.clone(), email: row.email.clone() });
        i = i + 1;
    }
    out
}

/// The user that a registration of `event` under `id` produced, once the insert has
/// reported `rows_affected` rows; none is an error.
pub fn created_user(id: UserId, event: CreateUser, rows_affected: u64) -> (r: AppResult<User>)
    ensures
        rows_affected == 0 ==> r matches Err(AppError::NoRowsAffectedError(_)),
        rows_affected != 0 ==> (r matches Ok(u) && u.id == id && u.name == event.name && u.email
            == event.email),
{
    if rows_affected == 0 {
        return Err(AppError::NoRowsAffectedError("No user has been created".to_string()));
    }
    Ok(User { id, name: event.name, email: event.email })
}

/// What the removal of an account that deleted `rows_affected` rows reports; none
/// means the account did not exist.
pub fn deleted_user(rows_affected: u64) -> (r: AppResult<()>)
    ensures
        r is Ok <==> rows_affected != 0,
        r matches Err(e) ==> e is EntityNotFoundError,
{
    if rows_affected == 0 {
        return Err(AppError::EntityNotFoundError("No user has been deleted".to_string()));
    }
    Ok(())
}

} // verus!
