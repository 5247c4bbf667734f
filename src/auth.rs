//! The authenticator: sign-up, sign-in and sign-out over a credential store
//! and a session store.
use crate::error::AuthError;
use crate::sessions::{sign_out_step, Sessions};
use crate::users::{resolve, sign_up_step, Credential, Users};
use vstd::prelude::*;

verus! {

/// What a store must be to be shared across request handlers.
pub trait Bound: Send + Sync + 'static {}

impl<T: Send + Sync + 'static> Bound for T {}

/// The view of a sign-in result: the session token, then the user id.
pub open spec fn pair_view(r: Result<(String, String), AuthError>) -> Result<
    (Seq<char>, Seq<char>),
    AuthError,
> {
    match r {
        Ok((token, id)) => Ok((token@, id@)),
        Err(e) => Err(e),
    }
}

/// One sign-in against the credentials `creds`, taking the sessions from
/// `before` to `after`. Credentials that resolve to no id fail with
/// `InvalidCredentials`; otherwise a new, non-empty token that was not active
/// is returned with that id, unless the session store failed (which
/// `never_fails` excludes).
pub open spec fn sign_in_step(
    creds: Map<Seq<char>, Credential>,
    before: Map<Seq<char>, Seq<char>>,
    username: Seq<char>,
    password: Seq<char>,
    outcome: Result<(Seq<char>, Seq<char>), AuthError>,
    after: Map<Seq<char>, Seq<char>>,
    never_fails: bool,
) -> bool {
    match resolve(creds, username, password) {
        None => outcome == Err::<(Seq<char>, Seq<char>), AuthError>(
            AuthError::InvalidCredentials,
        ) && after == before,
        Some(id) => match outcome {
            Ok((token, user_id)) => {
                &&& user_id == id
                &&& token.len() > 0
                &&& !before.contains_key(token)
                &&& after == before.insert(token, id)
            },
            Err(_) => !never_fails && after == before,
        },
    }
}

/// Sign-up, sign-in and sign-out over a credential store and a session store
/// that it owns.
pub struct Authenticator<U: Users, S: Sessions> {
    users: U,
    sessions: S,
}

impl<U: Users + Bound, S: Sessions + Bound> Authenticator<U, S> {
    /// The credentials of the credential store.
    pub closed spec fn credentials(&self) -> Map<Seq<char>, Credential> {
        self.users.credentials()
    }

    /// The active sessions of the session store.
    pub closed spec fn active(&self) -> Map<Seq<char>, Seq<char>> {
        self.sessions.active()
    }

    pub closed spec fn well_formed(&self) -> bool {
        self.users.well_formed() && self.sessions.well_formed()
    }

    pub fn new(users: U, sessions: S) -> (r: Self)
        requires
            users.well_formed(),
            sessions.well_formed(),
        ensures
            r.well_formed(),
            r.credentials() == users.credentials(),
            r.active() == sessions.active(),
    {
        Self { users, sessions }
    }

    /// Registers a user; a taken username fails with `DuplicateUsername`, a
    /// free one succeeds.
    pub fn sign_up(&mut self, username: &str, password: &str) -> (r: Result<(), AuthError>)
        requires
            old(self).well_formed(),
        ensures
            final(self).well_formed(),
            !old(self).credentials().contains_key(username@) ==> r is Ok,
            sign_up_step(
                old(self).credentials(),
                username@,
                password@,
                r,
                final(self).credentials(),
            ),
            final(self).active() == old(self).active(),
    {
        match self.users.create_user(username, password) {
            Ok(_) => Ok(()),
            Err(e) => Err(e),
        }
    }

    /// Revokes a session; an inactive token fails with `SessionNotFound`.
    pub fn sign_out(&mut self, session_token: &str) -> (r: Result<(), AuthError>)
        requires
            old(self).well_formed(),
        ensures
            final(self).well_formed(),
            sign_out_step(old(self).active(), session_token@, r, final(self).active()),
            final(self).credentials() == old(self).credentials(),
    {
        self.sessions.delete_session(session_token)
    }

    /// Opens a session for the user that the credentials resolve to, and
    /// returns its token with the user id.
    pub fn sign_in(&mut self, username: &str, password: &str) -> (r: Result<
        (String, String),
        AuthError,
    >)
        requires
            old(self).well_formed(),
        ensures
            final(self).well_formed(),
            sign_in_step(
                old(self).credentials(),
                old(self).active(),
                username@,
                password@,
                pair_view(r),
                final(self).active(),
                S::creation_never_fails(),
            ),
            final(self).credentials() == old(self).credentials(),
    {
        let user_id = match self.users.find_user_id(username, password) {
            Some(id) => id,
            None => return Err(AuthError::InvalidCredentials),
        };
        match self.sessions.create_session(user_id.as_str()) {
            Ok(session) => Ok((session, user_id)),
            Err(e) => Err(e),
        }
    }
}

} // verus!
