//! Password hashing through the `pbkdf2` crate's PHC-string interface.
use pbkdf2::password_hash::rand_core::OsRng;
use pbkdf2::password_hash::{PasswordHash, PasswordHasher, PasswordVerifier, SaltString};
use pbkdf2::Pbkdf2;
use vstd::prelude::*;

verus! {

/// The error type of the `password-hash` interface that `pbkdf2` implements.
#[verifier::external_type_specification]
#[verifier::external_body]
pub struct ExPasswordHashError(pbkdf2::password_hash::Error);

/// Whether PBKDF2 verification accepts `password` against the PHC string
/// `phc`: the string parses, and re-deriving from its salt and parameters
/// gives its output.
pub uninterp spec fn password_verifies(password: Seq<char>, phc: Seq<char>) -> bool;

/// Whether `PasswordHash::new` parses `phc` as a PHC string.
pub uninterp spec fn phc_parses(phc: Seq<char>) -> bool;

/// Relies on `SaltString::generate` (a fresh random salt drawn from `OsRng`)
/// and `Pbkdf2`'s `PasswordHasher::hash_password`, rendered as a PHC string.
/// With a generated salt, the default algorithm, no version and the default
/// parameters, none of its error returns can occur. The string records
/// algorithm, parameters and salt; it parses back, and `Pbkdf2`'s
/// `PasswordVerifier` re-derives from exactly those, so it accepts the same
/// password against it.
#[verifier::external_body]
pub(crate) fn hash_password(password: &str) -> (r: Result<String, pbkdf2::password_hash::Error>)
    ensures
        r is Ok,
        r matches Ok(phc) ==> phc_parses(phc@) && password_verifies(password@, phc@),
{
    let salt = SaltString::generate(&mut OsRng);
    match Pbkdf2.hash_password(password.as_bytes(), &salt) {
        Ok(hash) => Ok(hash.to_string()),
        Err(e) => Err(e),
    }
}

/// Relies on `PasswordHash::new`, which parses a PHC string, and `Pbkdf2`'s
/// `PasswordVerifier::verify_password`, which re-derives with the stored salt
/// and parameters and compares in constant time. A string that does not parse
/// gives the parse error, and verifies nothing; one that parses gives whether
/// the password verifies.
#[verifier::external_body]
pub(crate) fn verify_password(password: &str, phc: &str) -> (r: Result<
    bool,
    pbkdf2::password_hash::Error,
>)
    ensures
        r is Ok == phc_parses(phc@),
        r matches Ok(verified) ==> verified == password_verifies(password@, phc@),
        r is Err ==> !password_verifies(password@, phc@),
{
    match PasswordHash::new(phc) {
        Ok(parsed) => Ok(Pbkdf2.verify_password(password.as_bytes(), &parsed).is_ok()),
        Err(e) => Err(e),
    }
}

} // verus!
