//! Token claims, token kinds and password hashing.
use vstd::prelude::*;
use bcrypt::BcryptError;

use crate::models::auth::{AuthResponse, Claims};

verus! {

/// Access token lifetime: 24 hours.
pub const ACCESS_TOKEN_SECS: i64 = 60 * 60 * 24;

/// Refresh token lifetime: 7 days.
pub const REFRESH_TOKEN_SECS: i64 = 60 * 60 * 24 * 7;

/// Why authentication failed.
#[derive(Debug)]
pub enum AuthError {
    /// The token did not decode or verify; the detail says why.
    InvalidToken { detail: String },
    /// The token is of another kind than the one asked for.
    WrongTokenKind,
    /// Hashing or checking a password failed; the detail says why.
    PasswordHash { detail: String },
}

impl AuthError {
    /// The message that reports this error.
    pub fn message(&self) -> (m: String)
        ensures
            m@ == match self {
                AuthError::InvalidToken { detail } => "Invalid token: "@ + detail@,
                AuthError::WrongTokenKind => "Wrong token kind"@,
                AuthError::PasswordHash { detail } => detail@,
            },
    {
        match self {
            AuthError::InvalidToken { detail } => {
                let mut m = String::from_str("Invalid token: ");
                m.append(detail.as_str());
                m
            },
            AuthError::WrongTokenKind => String::from_str("Wrong token kind"),
            AuthError::PasswordHash { detail } => detail.clone(),
        }
    }
}

/// The claims of a token of kind `kind` for `username`, issued at `now`
/// and valid for `lifetime` seconds.
pub open spec fn claims_for(c: Claims, username: Seq<char>, kind: Seq<char>, now: int, lifetime: int) -> bool {
    &&& c.sub@ == username
    &&& c.kind@ == kind
    &&& c.iat == now
    &&& c.exp == now + lifetime
}

/// The claims of the access token and of the refresh token for `username`,
/// issued at Unix time `now`.
pub fn token_claims(username: &str, now: usize) -> (claims: (Claims, Claims))
    requires
        now + REFRESH_TOKEN_SECS <= usize::MAX,
    ensures
        claims_for(claims.0, username@, "access"@, now as int, ACCESS_TOKEN_SECS as int),
        claims_for(claims.1, username@, "refresh"@, now as int, REFRESH_TOKEN_SECS as int),
{
    let access = Claims {
        sub: username.to_owned(),
        kind: String::from_str("access"),
        exp: now + ACCESS_TOKEN_SECS as usize,
        iat: now,
    };
    let refresh = Claims {
        sub: username.to_owned(),
        kind: String::from_str("refresh"),
        exp: now + REFRESH_TOKEN_SECS as usize,
        iat: now,
    };
    (access, refresh)
}

/// The response that hands out a pair of bearer tokens.
pub fn bearer_response(access_token: String, refresh_token: String) -> (r: AuthResponse)
    ensures
        r.access_token == access_token,
        r.refresh_token == refresh_token,
        r.token_type@ == "Bearer"@,
{
    AuthResponse { access_token, refresh_token, token_type: String::from_str("Bearer") }
}

/// Accepts decoded `claims` only when they are of the expected kind.
pub fn check_token_kind(claims: Claims, expected_kind: &str) -> (r: Result<Claims, AuthError>)
    ensures
        claims.kind@ == expected_kind@ ==> r == Ok::<Claims, AuthError>(claims),
        claims.kind@ != expected_kind@ ==> r matches Err(AuthError::WrongTokenKind),
{
    let expected = expected_kind.to_owned();
    if claims.kind != expected {
        return Err(AuthError::WrongTokenKind);
    }
    Ok(claims)
}

/// An error of the `bcrypt` crate.
#[verifier::external_type_specification]
#[verifier::external_body]
pub struct ExBcryptError(BcryptError);

/// Whether `bcrypt::verify` accepts `password` for `hash` (`Some(true)`),
/// rejects it (`Some(false)`), or fails on a malformed hash (`None`).
pub uninterp spec fn bcrypt_verdict(password: Seq<char>, hash: Seq<char>) -> Option<bool>;

/// How a bcrypt hash of version 2b at cost 12 begins.
pub open spec fn bcrypt_default_prefix() -> Seq<char> {
    "$2b$12$"@
}

/// Hashes `password` with `bcrypt::hash` at `bcrypt::DEFAULT_COST`, with a
/// salt drawn from the OS. The hash itself is left unsaid, as it depends on
/// the salt; the claims are what the crate's source shows of every hash it
/// returns: it is 60 characters long, begins with `$2b$12$` (version 2b,
/// cost 12), and `bcrypt::verify` accepts `password` for it.
#[verifier::external_body]
fn bcrypt_hash(password: &str) -> (r: Result<String, BcryptError>)
    ensures
        r matches Ok(h) ==> h@.len() == 60 && h@.subrange(0, 7) == bcrypt_default_prefix()
            && bcrypt_verdict(password@, h@) == Some(true),
{
    bcrypt::hash(password, bcrypt::DEFAULT_COST)
}

/// Checks `password` against `hash` with `bcrypt::verify`; the claim is
/// that the outcome is `bcrypt_verdict` of the two.
#[verifier::external_body]
fn bcrypt_verify(password: &str, hash: &str) -> (r: Result<bool, BcryptError>)
    ensures
        match r {
            Ok(b) => bcrypt_verdict(password@, hash@) == Some(b),
            Err(_) => bcrypt_verdict(password@, hash@) is None,
        },
{
    bcrypt::verify(password, hash)
}

/// The message of a `bcrypt` error, as its `Display` writes it; nothing is
/// claimed of the text.
#[verifier::external_body]
fn bcrypt_error_text(e: &BcryptError) -> String {
    e.to_string()
}

/// The outcome of checking `password` against `hash`.
pub open spec fn password_verdict(password: Seq<char>, hash: Seq<char>) -> Option<bool> {
    bcrypt_verdict(password, hash)
}

/// Hashes `password` with bcrypt, version 2b, at the default cost of 12. A
/// hash that comes back is one that `verify_password` accepts for the same
/// password.
pub fn hash_password(password: &str) -> (r: Result<String, AuthError>)
    ensures
        r matches Ok(h) ==> h@.len() == 60 && h@.subrange(0, 7) == bcrypt_default_prefix()
            && password_verdict(password@, h@) == Some(true),
        r matches Err(e) ==> e is PasswordHash,
{
    match bcrypt_hash(password) {
        Ok(h) => Ok(h),
        Err(e) => Err(AuthError::PasswordHash { detail: bcrypt_error_text(&e) }),
    }
}

/// Checks `password` against the bcrypt `hash`: `Ok(true)` when it matches,
/// `Ok(false)` when it does not, an error when the hash is malformed.
pub fn verify_password(password: &str, hash: &str) -> (r: Result<bool, AuthError>)
    ensures
        match password_verdict(password@, hash@) {
            Some(b) => r == Ok::<bool, AuthError>(b),
            None => (r matches Err(e) && e is PasswordHash),
        },
{
    match bcrypt_verify(password, hash) {
        Ok(b) => Ok(b),
        Err(e) => Err(AuthError::PasswordHash { detail: bcrypt_error_text(&e) }),
    }
}

} // verus!
