use vstd::prelude::*;

verus! {

/// What a signed token asserts: who holds it, and when it was issued and expires.
#[derive(Debug, Clone)]
pub struct Claims {
    pub uid: i64,
    pub email: String,
    pub iat: usize,
    pub exp: usize,
}

#[derive(Debug, Clone)]
pub struct UserInfo {
    pub uid: i64,
    pub email: String,
}

/// A pair of tokens handed to a client.
#[derive(Debug, Clone)]
pub struct TokenSchema {
    pub refresh_token: String,
    pub access_token: String,
}

/// Tokens for an account whose address is verified, or not yet.
#[derive(Debug, Clone)]
pub enum Token {
    Verified(TokenSchema),
    UnVerified(TokenSchema),
}

#[derive(Debug, Clone)]
pub struct RefreshTokenSchema {
    pub refresh_token: String,
}

#[derive(Debug, Clone, Copy, PartialEq, Eq, Structural)]
pub enum TokenType {
    ACCESS,
    BASIC,
    REFRESH,
}

} // verus!
