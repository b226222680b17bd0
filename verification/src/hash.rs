use vstd::prelude::*;

use argon2::{Argon2, PasswordHash, PasswordHasher, PasswordVerifier};

use crate::error::AppError;

verus! {

/// What argon2's check decides for a password held against a stored hash
/// text in PHC form: a pure function of the two texts, the same on every
/// machine. A text that is no well-formed PHC string matches no password.
pub uninterp spec fn pw_verifies(plain: Seq<char>, hashed: Seq<char>) -> bool;

/// The error argon2 reports when hashing cannot proceed.
#[verifier::external_type_specification]
#[verifier::external_body]
pub struct ExPasswordHashError(argon2::password_hash::Error);

/// Relies on argon2::Argon2::hash_password (the PasswordHasher trait, with
/// the default parameters): hashes the password under a freshly drawn random
/// salt and renders the result as a PHC string. The salt is random, so the
/// text itself is pinned by nothing; what the crate does promise is that the
/// password it was made from verifies against it.
#[verifier::external_body]
fn argon2_hash(plain: &String) -> (r: Result<String, argon2::password_hash::Error>)
    ensures
        r matches Ok(h) ==> pw_verifies(plain@, h@),
{
    let hashed: Result<PasswordHash, argon2::password_hash::Error> = Argon2::default()
        .hash_password(plain.as_bytes());
    match hashed {
        Ok(h) => Ok(h.to_string()),
        Err(e) => Err(e),
    }
}

/// Relies on the Display form of argon2::password_hash::Error: a short
/// description of the fault, for the caller's error message.
#[verifier::external_body]
fn pw_error_text(e: &argon2::password_hash::Error) -> String {
    format!("{}", e)
}

/// Hashes a password for storage, with a fresh random salt. On success the
/// returned PHC text verifies against exactly the hashed password.
pub fn hash(plain_data: &String) -> (r: Result<String, AppError>)
    ensures
        r matches Ok(h) ==> pw_verifies(plain_data@, h@),
        r matches Err(e) ==> e matches AppError::InternalError(_),
{
    match argon2_hash(plain_data) {
        Ok(h) => Ok(h),
        Err(e) => {
            let text = pw_error_text(&e);
            Err(AppError::InternalError(String::from_str("Hashing Error ").concat(text.as_str())))
        },
    }
}

/// Relies on argon2::Argon2::verify_password (the PasswordVerifier trait on
/// the PHC text form): whether the password matches the stored hash text.
/// Parsing and checking are deterministic in the two texts; a malformed
/// hash text simply never matches.
#[verifier::external_body]
pub fn verify(plain_data: &String, hash_data: &String) -> (r: bool)
    ensures
        r == pw_verifies(plain_data@, hash_data@),
{
    Argon2::default().verify_password(plain_data.as_bytes(), hash_data.as_str()).is_ok()
}

} // verus!
