//! Who a request comes from, once its token has been checked.

use vstd::prelude::*;
use vstd::string::StringExecFns;

verus! {

/// The claims of a session token.
#[derive(Debug)]
pub struct ClerkClaims {
    /// The identifier of the user.
    pub sub: String,
    pub email: Option<String>,
    /// When the token expires.
    pub exp: usize,
    /// When the token was issued.
    pub iat: usize,
    pub azp: Option<String>,
}

/// The user behind an authenticated request.
#[derive(Debug, Clone)]
pub struct AuthenticatedUser {
    pub clerk_user_id: String,
    pub email: String,
}

/// Why a request was not authenticated.
pub struct AuthError(String);

impl AuthError {
    /// An error with the given message.
    pub fn new(message: String) -> (error: Self)
        ensures
            error.message() == message,
    {
        AuthError(message)
    }

    /// The message of the error.
    pub closed spec fn message(&self) -> String {
        self.0
    }

    /// The message of the error.
    pub fn into_message(self) -> (message: String)
        ensures
            message == self.message(),
    {
        self.0
    }
}

/// Checks session tokens against the provider's public key.
pub struct ClerkJwtValidator {
    pub clerk_public_key: String,
}

impl ClerkJwtValidator {
    /// A validator for the given public key in PEM form.
    pub fn new(clerk_public_key: String) -> (validator: Self)
        ensures
            validator.clerk_public_key == clerk_public_key,
    {
        ClerkJwtValidator { clerk_public_key }
    }
}

impl ClerkJwtValidator {
    /// A validator for the public key that the process-wide configuration
    /// holds, which must be there.
    pub fn from_env(configured: Option<String>) -> (validator: Result<Self, AuthError>)
        ensures
            match validator {
                Ok(v) => configured == Some(v.clerk_public_key),
                Err(e) => configured is None && e.message()@
                    == "CLERK_PUBLIC_KEY environment variable not set"@,
            },
    {
        match configured {
            Some(clerk_public_key) => Ok(ClerkJwtValidator { clerk_public_key }),
            None => Err(
                AuthError::new(String::from_str("CLERK_PUBLIC_KEY environment variable not set")),
            ),
        }
    }
}

impl AuthenticatedUser {
    /// The user that verified claims speak of. Claims without an e-mail
    /// address are refused.
    pub fn from_claims(claims: ClerkClaims) -> (user: Result<AuthenticatedUser, AuthError>)
        ensures
            match user {
                Ok(u) => claims.email == Some(u.email) && u.clerk_user_id == claims.sub,
                Err(e) => claims.email is None && e.message()@ == "Email not found in token"@,
            },
    {
        match claims.email {
            Some(email) => Ok(AuthenticatedUser { clerk_user_id: claims.sub, email }),
            None => Err(AuthError::new(String::from_str("Email not found in token"))),
        }
    }
}

} // verus!
