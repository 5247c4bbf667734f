//! The session store: active session tokens, each mapped to the id of the
//! user it authenticates.
use crate::error::AuthError;
use crate::ids::fresh_identifier;
use crate::keyed::{
    entries_map, keys_unique, lemma_entries_map_domain, lemma_entries_map_index,
    lemma_entries_map_len, lemma_entries_map_push, lemma_entries_map_remove,
};
use crate::users::opt_view;
use vstd::prelude::*;

verus! {

/// One creation of a session for `user_id`: on success a non-empty token that
/// was not active maps to that id, and every other session is kept; on
/// failure nothing changes.
pub open spec fn session_created(
    before: Map<Seq<char>, Seq<char>>,
    user_id: Seq<char>,
    outcome: Result<Seq<char>, AuthError>,
    after: Map<Seq<char>, Seq<char>>,
) -> bool {
    match outcome {
        Ok(token) => {
            &&& token.len() > 0
            &&& !before.contains_key(token)
            &&& after == before.insert(token, user_id)
        },
        Err(_) => after == before,
    }
}

/// One revocation of `token`: an active token is removed, any other fails
/// with `SessionNotFound` and changes nothing.
pub open spec fn sign_out_step(
    before: Map<Seq<char>, Seq<char>>,
    token: Seq<char>,
    outcome: Result<(), AuthError>,
    after: Map<Seq<char>, Seq<char>>,
) -> bool {
    if before.contains_key(token) {
        outcome == Ok::<(), AuthError>(()) && after == before.remove(token)
    } else {
        outcome == Err::<(), AuthError>(AuthError::SessionNotFound) && after == before
    }
}

/// The view of a token result.
pub open spec fn token_view(r: Result<String, AuthError>) -> Result<Seq<char>, AuthError> {
    match r {
        Ok(t) => Ok(t@),
        Err(e) => Err(e),
    }
}

/// The capabilities of a session store. Its state is the map from each active
/// token to a user id; one user may hold any number of sessions.
pub trait Sessions {
    spec fn active(&self) -> Map<Seq<char>, Seq<char>>;

    spec fn well_formed(&self) -> bool;

    /// Whether this kind of store always succeeds in creating a session.
    spec fn creation_never_fails() -> bool;

    /// Issues a fresh token for `user_id`.
    fn create_session(&mut self, user_id: &str) -> (r: Result<String, AuthError>)
        requires
            old(self).well_formed(),
        ensures
            final(self).well_formed(),
            session_created(old(self).active(), user_id@, token_view(r), final(self).active()),
            Self::creation_never_fails() ==> r is Ok,
    ;

    /// Revokes `session_token`.
    fn delete_session(&mut self, session_token: &str) -> (r: Result<(), AuthError>)
        requires
            old(self).well_formed(),
        ensures
            final(self).well_formed(),
            sign_out_step(old(self).active(), session_token@, r, final(self).active()),
    ;
}

/// One active session.
#[derive(Debug)]
struct Session {
    token: String,
    user_id: String,
}

impl Session {
    closed spec fn entry(&self) -> (Seq<char>, Seq<char>) {
        (self.token@, self.user_id@)
    }
}

/// A session store held in memory, lost when the process ends.
#[derive(Debug, Default)]
pub struct SessionsTranstient {
    sessions: Vec<Session>,
}

impl SessionsTranstient {
    /// The sessions as keyed entries.
    closed spec fn entries(&self) -> Seq<(Seq<char>, Seq<char>)> {
        self.sessions@.map_values(|s: Session| s.entry())
    }

    pub fn new() -> (r: Self)
        ensures
            r.well_formed(),
            r.active() == Map::<Seq<char>, Seq<char>>::empty(),
    {
        let r = Self { sessions: Vec::new() };
        assert(r.entries() =~= Seq::<(Seq<char>, Seq<char>)>::empty());
        r
    }

    /// The index of the session with this token.
    fn position_of(&self, token: &str) -> (r: Option<usize>)
        requires
            self.well_formed(),
        ensures
            match r {
                Some(i) => {
                    &&& i < self.sessions@.len()
                    &&& self.entries()[i as int].0 == token@
                    &&& self.active().contains_key(token@)
                    &&& self.active()[token@] == self.entries()[i as int].1
                },
                None => !self.active().contains_key(token@),
            },
    {
        let key = token.to_owned();
        let mut i: usize = 0;
        while i < self.sessions.len()
            invariant
                i <= self.sessions@.len(),
                self.well_formed(),
                key@ == token@,
                forall|j: int| 0 <= j < i ==> #[trigger] self.entries()[j].0 != token@,
            decreases self.sessions@.len() - i,
        {
            if self.sessions[i].token == key {
                proof {
                    lemma_entries_map_index(self.entries(), i as int);
                }
                return Some(i);
            }
            i += 1;
        }
        proof {
            lemma_entries_map_domain(self.entries(), token@);
        }
        None
    }

    /// The tokens of all sessions, in order.
    fn tokens(&self) -> (r: Vec<String>)
        ensures
            r@.len() == self.entries().len(),
            forall|i: int| 0 <= i < r@.len() ==> #[trigger] r@[i]@ == self.entries()[i].0,
    {
        let mut r: Vec<String> = Vec::new();
        let mut i: usize = 0;
        while i < self.sessions.len()
            invariant
                i <= self.sessions@.len(),
                r@.len() == i,
                forall|j: int| 0 <= j < i ==> #[trigger] r@[j]@ == self.entries()[j].0,
            decreases self.sessions@.len() - i,
        {
            r.push(self.sessions[i].token.clone());
            i += 1;
        }
        r
    }

    /// The number of active sessions.
    pub fn len(&self) -> (r: usize)
        requires
            self.well_formed(),
        ensures
            r == self.active().len(),
    {
        proof {
            lemma_entries_map_len(self.entries());
        }
        self.sessions.len()
    }

    /// The user id that `session_token` authenticates, if it is active.
    pub fn user_id_of(&self, session_token: &str) -> (r: Option<String>)
        requires
            self.well_formed(),
        ensures
            opt_view(r) == (if self.active().contains_key(session_token@) {
                Some(self.active()[session_token@])
            } else {
                None
            }),
    {
        match self.position_of(session_token) {
            Some(i) => Some(self.sessions[i].user_id.clone()),
            None => None,
        }
    }
}

impl Sessions for SessionsTranstient {
    closed spec fn active(&self) -> Map<Seq<char>, Seq<char>> {
        entries_map(self.entries())
    }

    closed spec fn well_formed(&self) -> bool {
        keys_unique(self.entries())
    }

    open spec fn creation_never_fails() -> bool {
        true
    }

    fn create_session(&mut self, user_id: &str) -> (r: Result<String, AuthError>) {
        let taken = self.tokens();
        let token = fresh_identifier(&taken);
        proof {
            let entries = self.entries();
            lemma_entries_map_domain(entries, token@);
            if entries_map(entries).contains_key(token@) {
                let i = choose|i: int| 0 <= i < entries.len() && #[trigger] entries[i].0 == token@;
                assert(taken@[i]@ == entries[i].0);
            }
        }
        let session = Session { token: token.clone(), user_id: user_id.to_owned() };
        let ghost e = session.entry();
        let ghost mid = self.entries();
        proof {
            lemma_entries_map_push(mid, e);
        }
        self.sessions.push(session);
        assert(self.entries() =~= mid.push(e));
        assert(self.active() =~= old(self).active().insert(token@, user_id@));
        Ok(token)
    }

    fn delete_session(&mut self, session_token: &str) -> (r: Result<(), AuthError>) {
        match self.position_of(session_token) {
            Some(i) => {
                proof {
                    lemma_entries_map_remove(self.entries(), i as int);
                }
                self.sessions.remove(i);
                assert(self.entries() =~= old(self).entries().remove(i as int));
                Ok(())
            },
            None => Err(AuthError::SessionNotFound),
        }
    }
}

} // verus!
