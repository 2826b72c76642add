use argon2::password_hash::rand_core::OsRng;
use argon2::password_hash::SaltString;
use argon2::{Argon2, PasswordHash, PasswordHasher, PasswordVerifier};
use vstd::prelude::*;

use crate::auth::byte_len;

verus! {

/// Whether `PasswordHash::new` parses `hash` as a PHC string.
pub uninterp spec fn phc_parses(hash: Seq<char>) -> bool;

/// What Argon2's `verify_password` says of `password` against the parsed PHC
/// string `hash`: `Some(true)` on a match, `Some(false)` on a mismatch and
/// `None` on any other failure.
pub uninterp spec fn argon2_verdict(hash: Seq<char>, password: Seq<char>) -> Option<bool>;

/// The outcome of checking a password against a stored hash.
#[derive(Debug)]
pub enum PasswordCheck {
    Matched,
    Mismatched,
    /// The stored hash is not a PHC string.
    Unparsable(String),
    /// The verifier failed for another reason.
    Failed(String),
}

/// Relies on argon2's `PasswordHasher::hash_password` of `Argon2::default()`,
/// salted with `SaltString::generate` from the operating system's random
/// generator. Such a salt is 16 bytes, which argon2 accepts, and with the
/// default parameters hashing fails only for a password longer than
/// `MAX_PWD_LEN` (`u32::MAX`) bytes. The PHC string it produces parses, and
/// verifies against the password it was made from.
#[verifier::external_body]
pub(crate) fn argon2_hash(password: &str) -> (r: Result<String, String>)
    ensures
        byte_len(password@) <= u32::MAX ==> r is Ok,
        r is Ok ==> phc_parses(r->Ok_0@),
        r is Ok ==> argon2_verdict(r->Ok_0@, password@) == Some(true),
{
    let salt = SaltString::generate(&mut OsRng);
    match Argon2::default().hash_password(password.as_bytes(), &salt) {
        Ok(hash) => Ok(hash.to_string()),
        Err(err) => Err(err.to_string()),
    }
}

/// Relies on argon2: `PasswordHash::new` parses the stored PHC string, and
/// `PasswordVerifier::verify_password` of `Argon2::default()` checks the
/// password against it, `password_hash::Error::Password` being a mismatch.
#[verifier::external_body]
pub(crate) fn argon2_check(hash: &str, password: &str) -> (r: PasswordCheck)
    ensures
        (r is Unparsable) == !phc_parses(hash@),
        phc_parses(hash@) ==> ((r is Matched) == (argon2_verdict(hash@, password@) == Some(true))),
        phc_parses(hash@) ==> ((r is Mismatched) == (argon2_verdict(hash@, password@) == Some(false))),
{
    match PasswordHash::new(hash) {
        Err(err) => PasswordCheck::Unparsable(err.to_string()),
        Ok(parsed) => match Argon2::default().verify_password(password.as_bytes(), &parsed) {
            Ok(()) => PasswordCheck::Matched,
            Err(argon2::password_hash::Error::Password) => PasswordCheck::Mismatched,
            Err(err) => PasswordCheck::Failed(err.to_string()),
        },
    }
}

} // verus!
