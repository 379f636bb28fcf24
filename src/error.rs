use vstd::prelude::*;

verus! {

/// Every failure the library reports, each with a human-readable message.
#[derive(Debug)]
pub enum AppError {
    ValidationError(String),
    ConvertToUuidError(String),
    HashPasswordError(String),
    EntityNotFoundError(String),
    SqlExecuteError(String),
    NoRowsAffectedError(String),
    KeyValueStoreError(String),
    ConversionEntityError(String),
    Unauthorized(String),
}

pub type AppResult<T> = Result<T, AppError>;

/// The transport status code that each kind of error is reported with.
pub open spec fn status_of(e: AppError) -> u16 {
    match e {
        AppError::EntityNotFoundError(_) => 404,
        AppError::ConvertToUuidError(_) => 400,
        AppError::ValidationError(_) => 400,
        AppError::Unauthorized(_) => 401,
        AppError::HashPasswordError(_) => 500,
        AppError::SqlExecuteError(_) => 500,
        AppError::NoRowsAffectedError(_) => 500,
        AppError::KeyValueStoreError(_) => 500,
        AppError::ConversionEntityError(_) => 500,
    }
}

impl AppError {
    /// The status code that a transport layer answers this error with.
    pub fn status_code(&self) -> (r: u16)
        ensures
            r == status_of(*self),
    {
        match self {
            AppError::EntityNotFoundError(_) => 404,
            AppError::ConvertToUuidError(_) => 400,
            AppError::ValidationError(_) => 400,
                AppError::Unauthorized(_) => 401,
            AppError::HashPasswordError(_) => 500,
            AppError::SqlExecuteError(_) => 500,
            AppError::NoRowsAffectedError(_) => 500,
            AppError::KeyValueStoreError(_) => 500,
            AppError::ConversionEntityError(_) => 500,
        }
    }

    /// The message carried by the error.
    pub fn message(&self) -> (r: String)
        ensures
            r@ == self.message_spec(),
    {
        match self {
            AppError::ValidationError(m) => m.clone(),
            AppError::ConvertToUuidError(m) => m.clone(),
            AppError::HashPasswordError(m) => m.clone(),
            AppError::EntityNotFoundError(m) => m.clone(),
            AppError::SqlExecuteError(m) => m.clone(),
            AppError::NoRowsAffectedError(m) => m.clone(),
            AppError::KeyValueStoreError(m) => m.clone(),
            AppError::ConversionEntityError(m) => m.clone(),
            AppError::Unauthorized(m) => m.clone(),
        }
    }

    pub open spec fn message_spec(&self) -> Seq<char> {
        match self {
            AppError::ValidationError(m) => m@,
            AppError::ConvertToUuidError(m) => m@,
            AppError::HashPasswordError(m) => m@,
            AppError::EntityNotFoundError(m) => m@,
            AppError::SqlExecuteError(m) => m@,
            AppError::NoRowsAffectedError(m) => m@,
            AppError::KeyValueStoreError(m) => m@,
            AppError::ConversionEntityError(m) => m@,
            AppError::Unauthorized(m) => m@,
        }
    }
}

} // verus!
