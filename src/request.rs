use vstd::prelude::*;

use crate::auth::TokenSchema;
use crate::types::{Currency, Language};

verus! {

/// What a successful login returns.
#[derive(Debug)]
pub struct LoginResponse {
    pub tokens: TokenSchema,
    pub name: String,
    pub email: String,
    pub local_currency: Currency,
    pub system_lang: Language,
}

#[derive(Debug, Clone)]
pub struct RegisterUserRequest {
    pub name: String,
    pub email: String,
    pub password: String,
}

#[derive(Debug, Clone)]
pub struct LoginUserRequest {
    pub email_or_name: String,
    pub password: String,
}

#[derive(Debug, Clone)]
pub struct ActiveAccountRequest {
    pub code: String,
}

#[derive(Debug, Clone)]
pub struct ResetPasswordRequest {
    pub code: String,
    pub password: String,
}

#[derive(Debug, Clone)]
pub struct CreateGroupRequest {
    pub name: String,
    pub remark: Option<String>,
}

#[derive(Debug, Clone)]
pub struct UpdateBwGroupRequest {
    pub group_id: i64,
    pub name: Option<String>,
    pub remark: Option<String>,
}

#[derive(Debug, Clone, Copy, PartialEq, Eq, Structural)]
pub struct DeleteBwGroupRequest {
    pub group_id: i64,
}

#[derive(Debug, Clone)]
pub struct ReadBwGroupRequest {
    pub group_ids: Vec<i64>,
}

/// A page of a listing.
#[derive(Debug, Clone, Copy, PartialEq, Eq, Structural)]
pub struct Limit {
    pub page: u32,
    pub page_size: u32,
    pub offset: u32,
    pub limit: u32,
}

} // verus!
