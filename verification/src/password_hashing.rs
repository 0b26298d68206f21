//! One-way, salted hashing of secrets, and their verification. The same
//! hasher serves account passwords and the fingerprints of refresh tokens.

use crate::text::text_view;
use argon2::password_hash::rand_core::OsRng;
use argon2::password_hash::{PasswordHash, PasswordHasher, PasswordVerifier, SaltString};
use argon2::Argon2;
use vstd::prelude::*;

verus! {

/// `argon2::password_hash::Error`: why the hasher failed. The library does
/// not look into it.
#[verifier::external_type_specification]
#[verifier::external_body]
pub struct ExPasswordHashError(argon2::password_hash::Error);

/// The verdict of the hasher on a secret and a hash string: the string
/// parses as a hash, and the secret, hashed again under the parameters and
/// the salt that the string holds, gives the digest that it holds. This is
/// whether `PasswordHash::new` and then `Argon2::verify_password` succeed.
pub uninterp spec fn argon2_accepts(password: Seq<char>, password_hash: Seq<char>) -> bool;

/// `Argon2::default().hash_password` under a salt that
/// `SaltString::generate` draws from the system's random source, written
/// out as a string. The string differs from call to call; each one starts
/// with the algorithm's name and so is not empty, and the hasher accepts the
/// secret against it. Where the system has no random source the call
/// panics.
#[verifier::external_body]
pub(crate) fn argon2_hash(password: &str) -> (r: Result<String, argon2::password_hash::Error>)
    ensures
        r matches Ok(hashed) ==> hashed@.len() > 0,
        r matches Ok(hashed) ==> argon2_accepts(password@, hashed@),
{
    let salt = SaltString::generate(&mut OsRng);
    match Argon2::default().hash_password(password.as_bytes(), &salt) {
        Ok(hashed) => Ok(hashed.to_string()),
        Err(e) => Err(e),
    }
}

/// `PasswordHash::new` and `Argon2::default().verify_password`: succeeds
/// exactly where the hasher accepts the secret against the string. A string
/// that does not parse is an error like any other.
#[verifier::external_body]
pub(crate) fn argon2_verify(password: &str, password_hash: &str) -> (r: Result<
    (),
    argon2::password_hash::Error,
>)
    ensures
        r is Ok <==> argon2_accepts(password@, password_hash@),
{
    let parsed = PasswordHash::new(password_hash)?;
    Argon2::default().verify_password(password.as_bytes(), &parsed)
}

/// A secret that the hasher did not accept against a hash string.
#[derive(Clone, Copy, Debug, PartialEq, Eq, Structural)]
pub struct Mismatch;

/// A hash string that may stand for `password` in a record: one that is
/// not empty and does not repeat the secret.
pub open spec fn usable(password: Seq<char>, hashed: Seq<char>) -> bool {
    hashed.len() > 0 && hashed != password
}

/// Decides on what the hasher produced: its string where it is usable, and
/// nothing where the hasher failed or the string is not.
pub fn usable_hash(password: &str, produced: Result<String, argon2::password_hash::Error>) -> (r:
    Option<String>)
    ensures
        text_view(r) == match produced {
            Ok(hashed) => if usable(password@, hashed@) {
                Some(hashed@)
            } else {
                None
            },
            Err(_) => None,
        },
{
    match produced {
        Ok(hashed) => {
            if hashed.as_str().is_empty() || hashed == password.to_owned() {
                None
            } else {
                Some(hashed)
            }
        },
        Err(_) => None,
    }
}

/// Hashes `password` under a fresh random salt. The hash describes itself:
/// it holds the parameters and the salt beside the digest. `None` where the
/// hasher fails; [`usable_hash`] says what is returned for each outcome of
/// the hasher.
pub fn hash(password: &str) -> (r: Option<String>)
    ensures
        r matches Some(hashed) ==> usable(password@, hashed@) && argon2_accepts(
            password@,
            hashed@,
        ),
{
    usable_hash(password, argon2_hash(password))
}

/// Verifies `password` against `password_hash`. A malformed hash is a
/// mismatch like a wrong password.
pub fn verify(password: &str, password_hash: &str) -> (r: Result<(), Mismatch>)
    ensures
        r is Ok <==> argon2_accepts(password@, password_hash@),
{
    match argon2_verify(password, password_hash) {
        Ok(()) => Ok(()),
        Err(_) => Err(Mismatch),
    }
}

} // verus!
