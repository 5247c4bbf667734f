//! Random identifiers for users and session tokens, checked against the
//! identifiers already in use.
use vstd::prelude::*;

verus! {

/// How many random identifiers are drawn before falling back to a
/// constructed one.
pub const RANDOM_DRAWS: usize = 4;

/// Relies on `uuid::Uuid::new_v4`, a random version-4 UUID, rendered by
/// `to_string` in its hyphenated form, which always has 36 characters.
#[verifier::external_body]
pub(crate) fn random_uuid() -> (r: String)
    ensures
        r@.len() == 36,
{
    uuid::Uuid::new_v4().to_string()
}

/// Whether `id` is one of `taken`.
fn is_taken(taken: &Vec<String>, id: &String) -> (r: bool)
    ensures
        r == exists|i: int| 0 <= i < taken@.len() && #[trigger] taken@[i]@ == id@,
{
    let mut i: usize = 0;
    while i < taken.len()
        invariant
            i <= taken@.len(),
            forall|j: int| 0 <= j < i ==> #[trigger] taken@[j]@ != id@,
        decreases taken@.len() - i,
    {
        if taken[i] == *id {
            return true;
        }
        i += 1;
    }
    false
}

/// A string that differs from each of `taken`: its `i`-th character differs
/// from the `i`-th character of `taken[i]`, and its length is the number of
/// strings, so a string of another length differs by its length.
fn differing_from_each(taken: &Vec<String>) -> (r: String)
    ensures
        r@.len() == taken@.len(),
        forall|i: int| 0 <= i < taken@.len() ==> r@ != #[trigger] taken@[i]@,
{
    let mut r = String::new();
    let mut i: usize = 0;
    while i < taken.len()
        invariant
            i <= taken@.len(),
            r@.len() == i,
            forall|j: int|
                0 <= j < i && j < (#[trigger] taken@[j]@).len() ==> r@[j] != taken@[j]@[j],
        decreases taken@.len() - i,
    {
        let s = taken[i].as_str();
        let is_a = i < s.unicode_len() && s.get_char(i) == 'a';
        let ghost before = r@;
        proof {
            reveal_strlit("a");
            reveal_strlit("b");
        }
        if is_a {
            r.append("b");
        } else {
            r.append("a");
        }
        assert(r@ =~= before.push(if is_a { 'b' } else { 'a' }));
        i += 1;
    }
    assert forall|i: int| 0 <= i < taken@.len() implies r@ != #[trigger] taken@[i]@ by {
        if taken@[i]@.len() == r@.len() {
            assert(r@[i] != taken@[i]@[i]);
        }
    }
    r
}

/// A non-empty identifier that is none of `taken`: a random UUID, drawn
/// again while it collides, up to `RANDOM_DRAWS` draws, and after that a
/// string built to differ from each of `taken`.
pub(crate) fn fresh_identifier(taken: &Vec<String>) -> (r: String)
    ensures
        r@.len() > 0,
        forall|i: int| 0 <= i < taken@.len() ==> #[trigger] taken@[i]@ != r@,
{
    let mut id = random_uuid();
    let mut draws: usize = 1;
    let mut collides = is_taken(taken, &id);
    while collides && draws < RANDOM_DRAWS
        invariant
            id@.len() == 36,
            draws <= RANDOM_DRAWS,
            collides == exists|i: int| 0 <= i < taken@.len() && #[trigger] taken@[i]@ == id@,
        decreases RANDOM_DRAWS - draws,
    {
        id = random_uuid();
        draws += 1;
        collides = is_taken(taken, &id);
    }
    if collides {
        id = differing_from_each(taken);
    }
    id
}

} // verus!
