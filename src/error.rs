use vstd::prelude::*;

verus! {

/// The kinds of failure that the stores and the authenticator report.
#[derive(PartialEq, Eq, Structural, Debug, Clone, Copy)]
pub enum AuthError {
    /// Sign-up with a username that is already registered.
    DuplicateUsername,
    /// Sign-in with an unknown username or a wrong password (the two are
    /// deliberately not told apart).
    InvalidCredentials,
    /// Sign-out of a token that is not an active session.
    SessionNotFound,
    /// The password hashing routine could not complete.
    HashingFailure,
    /// Deletion of a username that is not registered.
    UserNotFound,
}

/// The human-readable text of each error kind.
pub open spec fn error_text(e: AuthError) -> Seq<char> {
    match e {
        AuthError::DuplicateUsername => "Username already exists"@,
        AuthError::InvalidCredentials => "User not found"@,
        AuthError::SessionNotFound => "Session not found"@,
        AuthError::HashingFailure => "Failed to hash password"@,
        AuthError::UserNotFound => "User not found"@,
    }
}

impl AuthError {
    /// The text of this error.
    pub fn message(&self) -> (r: String)
        ensures
            r@ == error_text(*self),
    {
        match self {
            AuthError::DuplicateUsername => String::from_str("Username already exists"),
            AuthError::InvalidCredentials => String::from_str("User not found"),
            AuthError::SessionNotFound => String::from_str("Session not found"),
            AuthError::HashingFailure => String::from_str("Failed to hash password"),
            AuthError::UserNotFound => String::from_str("User not found"),
        }
    }
}

} // verus!
