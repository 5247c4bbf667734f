//! The credential store: registered users keyed by a unique username, each
//! with a salted password hash and a random id.
use crate::error::AuthError;
use crate::hashing::{hash_password, password_verifies, verify_password};
use crate::ids::fresh_identifier;
use crate::keyed::{
    entries_map, keys_unique, lemma_entries_map_domain, lemma_entries_map_index,
    lemma_entries_map_push, lemma_entries_map_remove,
};
use vstd::prelude::*;

verus! {

/// What the store holds for one username: the PHC string of its password hash,
/// then its id.
pub type Credential = (Seq<char>, Seq<char>);

/// The outcome of an operation with its payload dropped.
pub open spec fn discard<T>(r: Result<T, AuthError>) -> Result<(), AuthError> {
    match r {
        Ok(_) => Ok(()),
        Err(e) => Err(e),
    }
}

/// The view of an optional string.
pub open spec fn opt_view(r: Option<String>) -> Option<Seq<char>> {
    match r {
        Some(s) => Some(s@),
        None => None,
    }
}

/// The id that a username and password resolve to: the user's id when the
/// username is registered and the password verifies against its hash, else
/// nothing. An unknown username and a wrong password give the same answer.
pub open spec fn resolve(
    creds: Map<Seq<char>, Credential>,
    username: Seq<char>,
    password: Seq<char>,
) -> Option<Seq<char>> {
    if creds.contains_key(username) && password_verifies(password, creds[username].0) {
        Some(creds[username].1)
    } else {
        None
    }
}

/// One creation of a user, from the credentials `before` to `after`. A taken
/// username fails with `DuplicateUsername` and changes nothing; a free one is
/// added under a hash that verifies the password and an id that no registered
/// user has.
pub open spec fn sign_up_step(
    before: Map<Seq<char>, Credential>,
    username: Seq<char>,
    password: Seq<char>,
    outcome: Result<(), AuthError>,
    after: Map<Seq<char>, Credential>,
) -> bool {
    if before.contains_key(username) {
        outcome == Err::<(), AuthError>(AuthError::DuplicateUsername) && after == before
    } else {
        &&& outcome is Ok
        &&& after.contains_key(username)
        &&& after == before.insert(username, after[username])
        &&& password_verifies(password, after[username].0)
        &&& forall|k: Seq<char>| #[trigger] before.contains_key(k) ==> before[k].1 != after[username].1
    }
}

/// One deletion of a user: a registered username is removed, an unknown one
/// fails with `UserNotFound` and changes nothing.
pub open spec fn deletion_step(
    before: Map<Seq<char>, Credential>,
    username: Seq<char>,
    outcome: Result<(), AuthError>,
    after: Map<Seq<char>, Credential>,
) -> bool {
    if before.contains_key(username) {
        outcome == Ok::<(), AuthError>(()) && after == before.remove(username)
    } else {
        outcome == Err::<(), AuthError>(AuthError::UserNotFound) && after == before
    }
}

/// The capabilities of a credential store. Its state is the map from each
/// registered username to its credential.
pub trait Users {
    spec fn credentials(&self) -> Map<Seq<char>, Credential>;

    spec fn well_formed(&self) -> bool;

    /// Registers `username` with a freshly salted hash of `password`.
    fn create_user(&mut self, username: &str, password: &str) -> (r: Result<&User, AuthError>)
        requires
            old(self).well_formed(),
        ensures
            final(self).well_formed(),
            sign_up_step(
                old(self).credentials(),
                username@,
                password@,
                discard(r),
                final(self).credentials(),
            ),
            !old(self).credentials().contains_key(username@) ==> r is Ok,
            r matches Ok(u) ==> u.entry() == (username@, final(self).credentials()[username@]),
    ;

    /// The id of the user with this username, when the password verifies.
    fn find_user_id(&self, username: &str, password: &str) -> (r: Option<String>)
        requires
            self.well_formed(),
        ensures
            opt_view(r) == resolve(self.credentials(), username@, password@),
    ;

    /// Removes the user with this username.
    fn delete_user(&mut self, username: &str) -> (r: Result<(), AuthError>)
        requires
            old(self).well_formed(),
        ensures
            final(self).well_formed(),
            deletion_step(old(self).credentials(), username@, r, final(self).credentials()),
    ;
}

/// One registered identity.
#[derive(Debug)]
pub struct User {
    username: String,
    password: String,
    uuid: String,
}

impl User {
    /// The username, then the password hash and the id.
    pub closed spec fn entry(&self) -> (Seq<char>, Credential) {
        (self.username@, (self.password@, self.uuid@))
    }

    pub fn username(&self) -> (r: &str)
        ensures
            r@ == self.entry().0,
    {
        self.username.as_str()
    }

    /// The stored password hash (a PHC string), never the plain password.
    pub fn password(&self) -> (r: &str)
        ensures
            r@ == self.entry().1.0,
    {
        self.password.as_str()
    }
}

/// A credential store held in memory, lost when the process ends.
#[derive(Debug, Default)]
pub struct UsersTransient {
    users: Vec<User>,
}

impl UsersTransient {
    /// The records as keyed entries.
    pub closed spec fn entries(&self) -> Seq<(Seq<char>, Credential)> {
        self.users@.map_values(|u: User| u.entry())
    }

    pub fn new() -> (r: UsersTransient)
        ensures
            r.well_formed(),
            r.credentials() == Map::<Seq<char>, Credential>::empty(),
    {
        let r = UsersTransient { users: Vec::new() };
        assert(r.entries() =~= Seq::<(Seq<char>, Credential)>::empty());
        r
    }

    /// The index of the record with this username.
    fn position_of(&self, username: &str) -> (r: Option<usize>)
        requires
            self.well_formed(),
        ensures
            match r {
                Some(i) => {
                    &&& i < self.users@.len()
                    &&& self.entries()[i as int].0 == username@
                    &&& self.credentials().contains_key(username@)
                    &&& self.credentials()[username@] == self.entries()[i as int].1
                },
                None => !self.credentials().contains_key(username@),
            },
    {
        let key = username.to_owned();
        let mut i: usize = 0;
        while i < self.users.len()
            invariant
                i <= self.users@.len(),
                self.well_formed(),
                key@ == username@,
                forall|j: int| 0 <= j < i ==> #[trigger] self.entries()[j].0 != username@,
            decreases self.users@.len() - i,
        {
            if self.users[i].username == key {
                proof {
                    lemma_entries_map_index(self.entries(), i as int);
                }
                return Some(i);
            }
            i += 1;
        }
        proof {
            lemma_entries_map_domain(self.entries(), username@);
        }
        None
    }

    /// The ids of all records, in order.
    fn ids(&self) -> (r: Vec<String>)
        ensures
            r@.len() == self.entries().len(),
            forall|i: int| 0 <= i < r@.len() ==> #[trigger] r@[i]@ == self.entries()[i].1.1,
    {
        let mut r: Vec<String> = Vec::new();
        let mut i: usize = 0;
        while i < self.users.len()
            invariant
                i <= self.users@.len(),
                r@.len() == i,
                forall|j: int| 0 <= j < i ==> #[trigger] r@[j]@ == self.entries()[j].1.1,
            decreases self.users@.len() - i,
        {
            r.push(self.users[i].uuid.clone());
            i += 1;
        }
        r
    }

    /// The record with this username.
    pub fn find_user_by_username(&self, username: &str) -> (r: Option<&User>)
        requires
            self.well_formed(),
        ensures
            match r {
                Some(u) => {
                    &&& self.credentials().contains_key(username@)
                    &&& u.entry() == (username@, self.credentials()[username@])
                },
                None => !self.credentials().contains_key(username@),
            },
    {
        match self.position_of(username) {
            Some(i) => Some(&self.users[i]),
            None => None,
        }
    }
}

impl Users for UsersTransient {
    closed spec fn credentials(&self) -> Map<Seq<char>, Credential> {
        entries_map(self.entries())
    }

    closed spec fn well_formed(&self) -> bool {
        keys_unique(self.entries())
    }

    fn create_user(&mut self, username: &str, password: &str) -> (r: Result<&User, AuthError>) {
        if self.position_of(username).is_some() {
            return Err(AuthError::DuplicateUsername);
        }
        let hashed = match hash_password(password) {
            Ok(h) => h,
            Err(_) => return Err(AuthError::HashingFailure),
        };
        let taken = self.ids();
        let id = fresh_identifier(&taken);
        proof {
            let entries = self.entries();
            assert forall|k: Seq<char>| #[trigger]
                entries_map(entries).contains_key(k) implies entries_map(entries)[k].1 != id@ by {
                lemma_entries_map_domain(entries, k);
                let i = choose|i: int| 0 <= i < entries.len() && #[trigger] entries[i].0 == k;
                lemma_entries_map_index(entries, i);
                assert(taken@[i]@ == entries[i].1.1);
            }
        }
        let user = User { username: username.to_owned(), password: hashed, uuid: id };
        let ghost e = user.entry();
        proof {
            lemma_entries_map_push(self.entries(), e);
        }
        self.users.push(user);
        assert(self.entries() =~= old(self).entries().push(e));
        let last = self.users.len() - 1;
        Ok(&self.users[last])
    }

    fn find_user_id(&self, username: &str, password: &str) -> (r: Option<String>) {
        match self.find_user_by_username(username) {
            Some(user) => {
                // A stored hash that does not parse counts as no match.
                match verify_password(password, user.password.as_str()) {
                    Ok(true) => Some(user.uuid.clone()),
                    _ => None,
                }
            },
            None => None,
        }
    }

    fn delete_user(&mut self, username: &str) -> (r: Result<(), AuthError>) {
        match self.position_of(username) {
            Some(i) => {
                proof {
                    lemma_entries_map_remove(self.entries(), i as int);
                }
                self.users.remove(i);
                assert(self.entries() =~= old(self).entries().remove(i as int));
                Ok(())
            },
            None => Err(AuthError::UserNotFound),
        }
    }
}

} // verus!
