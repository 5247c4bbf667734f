//! The service façade: one authenticator over in-memory stores, with results
//! turned into a status code and a payload. Error kinds are not passed on.
use crate::auth::Authenticator;
use crate::sessions::SessionsTranstient;
use crate::users::{resolve, Credential, UsersTransient};
use crate::hashing::password_verifies;
use vstd::prelude::*;

verus! {

/// The status that a reply carries.
#[derive(PartialEq, Eq, Structural, Debug, Clone, Copy)]
pub enum StatusCode {
    Success,
    Failure,
}

/// The reply to a sign-up.
#[derive(Debug)]
pub struct SignUpResponse {
    pub status_code: StatusCode,
}

/// The reply to a sign-in: on success the new session token and the user id,
/// on failure two empty strings.
#[derive(Debug)]
pub struct SignInResponse {
    pub status_code: StatusCode,
    pub session_token: String,
    pub user_id: String,
}

/// The reply to a sign-out.
#[derive(Debug)]
pub struct SignOutResponse {
    pub status_code: StatusCode,
}

/// Which stores back the service.
#[derive(PartialEq, Eq, Structural, Debug, Clone, Copy)]
pub enum AuthenticationServiceConfig {
    InMemory,
}

impl Default for AuthenticationServiceConfig {
    fn default() -> (r: Self)
        ensures
            r == AuthenticationServiceConfig::InMemory,
    {
        AuthenticationServiceConfig::InMemory
    }
}

impl AuthenticationServiceConfig {
    /// The configuration that a name selects: `InMemory` is the only one.
    pub fn parse(s: &str) -> (r: Option<Self>)
        ensures
            r == (if s@ == "InMemory"@ {
                Some(AuthenticationServiceConfig::InMemory)
            } else {
                None
            }),
    {
        let name = s.to_owned();
        let in_memory = String::from_str("InMemory");
        if name == in_memory {
            Some(AuthenticationServiceConfig::InMemory)
        } else {
            None
        }
    }
}

impl std::str::FromStr for AuthenticationServiceConfig {
    type Err = ();

    fn from_str(s: &str) -> Result<Self, Self::Err> {
        match AuthenticationServiceConfig::parse(s) {
            Some(config) => Ok(config),
            None => Err(()),
        }
    }
}

/// One authenticator over in-memory stores. Each operation is one call into
/// it; callers that share the service serialise those calls.
pub struct AuthenticationService {
    authenticator: Authenticator<UsersTransient, SessionsTranstient>,
}

impl AuthenticationService {
    /// The registered credentials.
    pub closed spec fn credentials(&self) -> Map<Seq<char>, Credential> {
        self.authenticator.credentials()
    }

    /// The active sessions.
    pub closed spec fn active(&self) -> Map<Seq<char>, Seq<char>> {
        self.authenticator.active()
    }

    pub closed spec fn well_formed(&self) -> bool {
        self.authenticator.well_formed()
    }

    pub fn new(authenticator: Authenticator<UsersTransient, SessionsTranstient>) -> (r: Self)
        requires
            authenticator.well_formed(),
        ensures
            r.well_formed(),
            r.credentials() == authenticator.credentials(),
            r.active() == authenticator.active(),
    {
        Self { authenticator }
    }

    /// A service with empty stores of the kind that `config` selects.
    pub fn new_with_config(config: AuthenticationServiceConfig) -> (r: Self)
        ensures
            r.well_formed(),
            r.credentials() == Map::<Seq<char>, Credential>::empty(),
            r.active() == Map::<Seq<char>, Seq<char>>::empty(),
    {
        match config {
            AuthenticationServiceConfig::InMemory => Self::new(
                Authenticator::new(UsersTransient::new(), SessionsTranstient::new()),
            ),
        }
    }

    /// Signs a user up. A taken username fails and changes nothing; a free one
    /// succeeds and is registered under a hash that verifies the password and
    /// an id that no other user has.
    pub fn sign_up(&mut self, username: &str, password: &str) -> (r: SignUpResponse)
        requires
            old(self).well_formed(),
        ensures
            final(self).well_formed(),
            final(self).active() == old(self).active(),
            old(self).credentials().contains_key(username@) ==> r.status_code
                == StatusCode::Failure && final(self).credentials() == old(self).credentials(),
            !old(self).credentials().contains_key(username@) ==> {
                &&& r.status_code == StatusCode::Success
                &&& final(self).credentials().contains_key(username@)
                &&& final(self).credentials() == old(self).credentials().insert(
                    username@,
                    final(self).credentials()[username@],
                )
                &&& password_verifies(password@, final(self).credentials()[username@].0)
                &&& forall|k: Seq<char>| #[trigger]
                    old(self).credentials().contains_key(k) ==> old(self).credentials()[k].1
                        != final(self).credentials()[username@].1
            },
    {
        match self.authenticator.sign_up(username, password) {
            Ok(_) => SignUpResponse { status_code: StatusCode::Success },
            Err(_) => SignUpResponse { status_code: StatusCode::Failure },
        }
    }

    /// Signs a user in: credentials that resolve to an id open a new session
    /// for it under a fresh, non-empty token; any others fail with empty token
    /// and id.
    pub fn sign_in(&mut self, username: &str, password: &str) -> (r: SignInResponse)
        requires
            old(self).well_formed(),
        ensures
            final(self).well_formed(),
            final(self).credentials() == old(self).credentials(),
            match resolve(old(self).credentials(), username@, password@) {
                Some(id) => {
                    &&& r.status_code == StatusCode::Success
                    &&& r.user_id@ == id
                    &&& r.session_token@.len() > 0
                    &&& !old(self).active().contains_key(r.session_token@)
                    &&& final(self).active() == old(self).active().insert(r.session_token@, id)
                },
                None => {
                    &&& r.status_code == StatusCode::Failure
                    &&& r.session_token@ == Seq::<char>::empty()
                    &&& r.user_id@ == Seq::<char>::empty()
                    &&& final(self).active() == old(self).active()
                },
            },
    {
        match self.authenticator.sign_in(username, password) {
            Ok((session_token, user_id)) => SignInResponse {
                status_code: StatusCode::Success,
                session_token,
                user_id,
            },
            Err(_) => SignInResponse {
                status_code: StatusCode::Failure,
                session_token: String::new(),
                user_id: String::new(),
            },
        }
    }

    /// Signs a session out: an active token is revoked, any other fails.
    pub fn sign_out(&mut self, session_token: &str) -> (r: SignOutResponse)
        requires
            old(self).well_formed(),
        ensures
            final(self).well_formed(),
            final(self).credentials() == old(self).credentials(),
            r.status_code == (if old(self).active().contains_key(session_token@) {
                StatusCode::Success
            } else {
                StatusCode::Failure
            }),
            final(self).active() == old(self).active().remove(session_token@),
    {
        let res = self.authenticator.sign_out(session_token);
        assert(self.active() =~= old(self).active().remove(session_token@));
        match res {
            Ok(_) => SignOutResponse { status_code: StatusCode::Success },
            Err(_) => SignOutResponse { status_code: StatusCode::Failure },
        }
    }
}

impl Default for AuthenticationService {
    fn default() -> (r: Self)
        ensures
            r.well_formed(),
            r.credentials() == Map::<Seq<char>, Credential>::empty(),
            r.active() == Map::<Seq<char>, Seq<char>>::empty(),
    {
        Self::new_with_config(AuthenticationServiceConfig::InMemory)
    }
}

} // verus!
