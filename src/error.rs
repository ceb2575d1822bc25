use vstd::prelude::*;

use crate::types::AuthInnerError;

verus! {

/// Failures of the stores and services behind the library, each with its message text.
#[derive(Debug, Clone)]
pub enum AppInnerError {
    DataBaseError(String),
    RedisError(String),
    MQError(String),
    EmailError(String),
    Unknown(String),
    Anyhow(String),
}

/// An error as a request handler reports it.
#[derive(Debug, Clone)]
pub enum AppError {
    Unknown(String),
    Anyhow(String),
    ErrSystem(String),
    ValidationError(String),
    AxumFormRejection(String),
    InnerError(AppInnerError),
    AuthError(AuthInnerError),
}

pub const STATUS_OK: u16 = 200;

pub const STATUS_BAD_REQUEST: u16 = 400;

pub const STATUS_UNAUTHORIZED: u16 = 401;

pub const STATUS_FORBIDDEN: u16 = 403;

pub const STATUS_CONFLICT: u16 = 409;

pub const STATUS_UNPROCESSABLE_ENTITY: u16 = 422;

/// The HTTP status and the application code that an error is reported with.
pub open spec fn status_code_of(e: AppError) -> (u16, u32) {
    match e {
        AppError::ValidationError(_) => (STATUS_UNPROCESSABLE_ENTITY, 20001),
        AppError::AuthError(a) => match a {
            AuthInnerError::WrongCredentials => (STATUS_UNAUTHORIZED, 10001),
            AuthInnerError::TokenCreation => (STATUS_FORBIDDEN, 10002),
            AuthInnerError::InvalidToken => (STATUS_UNAUTHORIZED, 10003),
            AuthInnerError::UserAlreadyExists => (STATUS_CONFLICT, 10004),
            AuthInnerError::MissingCredentials => (STATUS_UNAUTHORIZED, 10005),
        },
        _ => (STATUS_BAD_REQUEST, 99999),
    }
}

impl AppError {
    pub fn select_status_code(app_error: &AppError) -> (r: (u16, u32))
        ensures
            r == status_code_of(*app_error),
    {
        match app_error {
            AppError::ValidationError(_) => (STATUS_UNPROCESSABLE_ENTITY, 20001),
            AppError::AuthError(a) => match a {
                AuthInnerError::WrongCredentials => (STATUS_UNAUTHORIZED, 10001),
                AuthInnerError::TokenCreation => (STATUS_FORBIDDEN, 10002),
                AuthInnerError::InvalidToken => (STATUS_UNAUTHORIZED, 10003),
                AuthInnerError::UserAlreadyExists => (STATUS_CONFLICT, 10004),
                AuthInnerError::MissingCredentials => (STATUS_UNAUTHORIZED, 10005),
            },
            _ => (STATUS_BAD_REQUEST, 99999),
        }
    }
}

/// The status and code of a response: success unless it carries an error.
pub fn response_status(err: &Option<AppError>) -> (r: (u16, u32))
    ensures
        r == match *err {
            Some(e) => status_code_of(e),
            None => (STATUS_OK, 0u32),
        },
{
    match err {
        Some(e) => AppError::select_status_code(e),
        None => (STATUS_OK, 0),
    }
}

} // verus!
