//! Properties that relate several operations of the stores and the
//! authenticator, stated over the step relations that their contracts use.
use crate::auth::sign_in_step;
use crate::error::AuthError;
use crate::hashing::password_verifies;
use crate::sessions::sign_out_step;
use crate::users::{deletion_step, resolve, sign_up_step, Credential};
use vstd::prelude::*;

verus! {

/// Creating one username leaves every other username as it was: whether it
/// is registered, and under which credential. So two distinct free usernames
/// are both created, in either order, with distinct ids, and the first keeps
/// its credential.
pub proof fn law_distinct_usernames_independent(
    before: Map<Seq<char>, Credential>,
    u1: Seq<char>,
    p1: Seq<char>,
    o1: Result<(), AuthError>,
    mid: Map<Seq<char>, Credential>,
    u2: Seq<char>,
    p2: Seq<char>,
    o2: Result<(), AuthError>,
    after: Map<Seq<char>, Credential>,
)
    requires
        u1 != u2,
        !before.contains_key(u2),
        sign_up_step(before, u1, p1, o1, mid),
        !before.contains_key(u1),
        sign_up_step(mid, u2, p2, o2, after),
    ensures
        !mid.contains_key(u2),
        o1 is Ok,
        o2 is Ok,
        after.contains_key(u1) && after[u1] == mid[u1],
        after[u1].1 != after[u2].1,
{
    assert(mid.contains_key(u1));
}

/// Creating a free username twice succeeds the first time; the second time
/// fails with `DuplicateUsername` and changes nothing, whatever the password.
pub proof fn law_same_username_created_once(
    before: Map<Seq<char>, Credential>,
    u: Seq<char>,
    p1: Seq<char>,
    o1: Result<(), AuthError>,
    mid: Map<Seq<char>, Credential>,
    p2: Seq<char>,
    o2: Result<(), AuthError>,
    after: Map<Seq<char>, Credential>,
)
    requires
        !before.contains_key(u),
        sign_up_step(before, u, p1, o1, mid),
        sign_up_step(mid, u, p2, o2, after),
    ensures
        o1 is Ok,
        o2 == Err::<(), AuthError>(AuthError::DuplicateUsername),
        after == mid,
{
}

/// After `(u, p)` is created on a free username, `u` with `p` resolves to the
/// id stored for `u`; creating other usernames afterwards does not change what
/// it resolves to.
pub proof fn law_created_user_resolves(
    before: Map<Seq<char>, Credential>,
    u: Seq<char>,
    p: Seq<char>,
    o: Result<(), AuthError>,
    mid: Map<Seq<char>, Credential>,
    u2: Seq<char>,
    p2: Seq<char>,
    o2: Result<(), AuthError>,
    after: Map<Seq<char>, Credential>,
)
    requires
        !before.contains_key(u),
        sign_up_step(before, u, p, o, mid),
        u2 != u,
        sign_up_step(mid, u2, p2, o2, after),
    ensures
        resolve(mid, u, p) == Some(mid[u].1),
        resolve(after, u, p) == resolve(mid, u, p),
{
}

/// An unknown username and a password that does not verify both resolve to
/// nothing: the caller cannot tell the two apart.
pub proof fn law_failed_lookups_identical(
    creds: Map<Seq<char>, Credential>,
    unknown: Seq<char>,
    known: Seq<char>,
    anything: Seq<char>,
    wrong: Seq<char>,
)
    requires
        !creds.contains_key(unknown),
        creds.contains_key(known),
        !password_verifies(wrong, creds[known].0),
    ensures
        resolve(creds, unknown, anything) == resolve(creds, known, wrong),
        resolve(creds, unknown, anything) == None::<Seq<char>>,
{
}

/// Sign-up of `(u, p)` on a free username succeeds; sign-in with them on a
/// session store that never fails to create a session then succeeds with a
/// new, non-empty token; signing that token out succeeds once, and a second
/// sign-out fails with `SessionNotFound`.
pub proof fn law_round_trip(
    c0: Map<Seq<char>, Credential>,
    u: Seq<char>,
    p: Seq<char>,
    signed_up: Result<(), AuthError>,
    c1: Map<Seq<char>, Credential>,
    s0: Map<Seq<char>, Seq<char>>,
    signed_in: Result<(Seq<char>, Seq<char>), AuthError>,
    s1: Map<Seq<char>, Seq<char>>,
    first_out: Result<(), AuthError>,
    s2: Map<Seq<char>, Seq<char>>,
    second_out: Result<(), AuthError>,
    s3: Map<Seq<char>, Seq<char>>,
)
    requires
        !c0.contains_key(u),
        sign_up_step(c0, u, p, signed_up, c1),
        sign_in_step(c1, s0, u, p, signed_in, s1, true),
        sign_out_step(s1, signed_in->Ok_0.0, first_out, s2),
        sign_out_step(s2, signed_in->Ok_0.0, second_out, s3),
    ensures
        signed_up is Ok,
        signed_in is Ok,
        signed_in->Ok_0.0.len() > 0,
        !s0.contains_key(signed_in->Ok_0.0),
        signed_in->Ok_0.1 == c1[u].1,
        first_out == Ok::<(), AuthError>(()),
        second_out == Err::<(), AuthError>(AuthError::SessionNotFound),
{
    let token = signed_in->Ok_0.0;
    assert(s1.contains_key(token));
    assert(!s2.contains_key(token));
}

/// All sign-ups of `u` from `k` on fail with `DuplicateUsername` once `u` is
/// registered in `states[k]`.
proof fn lemma_registered_stays(
    states: Seq<Map<Seq<char>, Credential>>,
    u: Seq<char>,
    passwords: Seq<Seq<char>>,
    outcomes: Seq<Result<(), AuthError>>,
    k: int,
)
    requires
        states.len() == outcomes.len() + 1,
        passwords.len() == outcomes.len(),
        0 <= k <= outcomes.len(),
        states[k].contains_key(u),
        forall|i: int|
            0 <= i < outcomes.len() ==> #[trigger] sign_up_step(
                states[i],
                u,
                passwords[i],
                outcomes[i],
                states[i + 1],
            ),
    ensures
        forall|j: int|
            k <= j < outcomes.len() ==> #[trigger] outcomes[j] == Err::<(), AuthError>(
                AuthError::DuplicateUsername,
            ),
    decreases outcomes.len() - k,
{
    if k < outcomes.len() {
        assert(sign_up_step(states[k], u, passwords[k], outcomes[k], states[k + 1]));
        lemma_registered_stays(states, u, passwords, outcomes, k + 1);
    }
}

/// Sign-ups of one username, run one after another as the service's callers
/// are: once one of them has succeeded every later one fails with
/// `DuplicateUsername`. When the username was free at the start, the first
/// succeeds and all the others fail with `DuplicateUsername`: exactly one
/// success, whatever the passwords.
pub proof fn law_serialized_sign_ups(
    states: Seq<Map<Seq<char>, Credential>>,
    u: Seq<char>,
    passwords: Seq<Seq<char>>,
    outcomes: Seq<Result<(), AuthError>>,
)
    requires
        states.len() == outcomes.len() + 1,
        passwords.len() == outcomes.len(),
        forall|i: int|
            0 <= i < outcomes.len() ==> #[trigger] sign_up_step(
                states[i],
                u,
                passwords[i],
                outcomes[i],
                states[i + 1],
            ),
    ensures
        forall|i: int, j: int|
            0 <= i < j < outcomes.len() && #[trigger] outcomes[i] is Ok ==> #[trigger] outcomes[j]
                == Err::<(), AuthError>(AuthError::DuplicateUsername),
        outcomes.len() > 0 && !states[0].contains_key(u) ==> {
            &&& outcomes[0] is Ok
            &&& forall|j: int|
                1 <= j < outcomes.len() ==> #[trigger] outcomes[j] == Err::<(), AuthError>(
                    AuthError::DuplicateUsername,
                )
        },
{
    assert forall|i: int, j: int|
        0 <= i < j < outcomes.len() && #[trigger] outcomes[i] is Ok implies #[trigger] outcomes[j]
        == Err::<(), AuthError>(AuthError::DuplicateUsername) by {
        assert(sign_up_step(states[i], u, passwords[i], outcomes[i], states[i + 1]));
        lemma_registered_stays(states, u, passwords, outcomes, i + 1);
    }
    if outcomes.len() > 0 && !states[0].contains_key(u) {
        let first: int = 0;
        assert(sign_up_step(states[first], u, passwords[first], outcomes[first], states[first + 1]));
        lemma_registered_stays(states, u, passwords, outcomes, first + 1);
    }
}

/// Deleting a user touches only the credential store: a session that was
/// active for any user, the deleted one included, still signs out.
pub proof fn law_deletion_keeps_sessions(
    c0: Map<Seq<char>, Credential>,
    u: Seq<char>,
    deleted: Result<(), AuthError>,
    c1: Map<Seq<char>, Credential>,
    sessions: Map<Seq<char>, Seq<char>>,
    token: Seq<char>,
    signed_out: Result<(), AuthError>,
    after: Map<Seq<char>, Seq<char>>,
)
    requires
        deletion_step(c0, u, deleted, c1),
        sessions.contains_key(token),
        sign_out_step(sessions, token, signed_out, after),
    ensures
        deleted is Ok ==> !c1.contains_key(u),
        signed_out == Ok::<(), AuthError>(()),
{
}

} // verus!
