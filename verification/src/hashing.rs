//! The credential hasher: a plaintext secret becomes a salted, self-describing
//! digest string, and a secret is later checked against such a digest.
//!
//! The hashing itself is done by the `argon2` crate; the two wrappers below
//! are the only places it is called. Everything the rest of the crate knows
//! about digests is said through the two named results `digest_well_formed`
//! and `digest_verifies`.

use vstd::prelude::*;

use argon2::password_hash::rand_core::RngCore;
use argon2::password_hash::{rand_core, PasswordHash, PasswordHasher, SaltString};
use argon2::PasswordVerifier;

use crate::errors::AppError;

verus! {

/// Whether `digest` parses as a password-hash string whose algorithm and
/// parameters the verifier accepts. Names the combined outcome of
/// `argon2::password_hash::PasswordHash::new` and the parameter checks of
/// `argon2::Argon2::verify_password`, which depend on the digest alone.
pub uninterp spec fn digest_well_formed(digest: Seq<char>) -> bool;

/// Whether checking `secret` against `digest` succeeds: the digest's own
/// salt and parameters are used to re-hash `secret` and the outputs agree.
/// Names the outcome of `argon2::Argon2::verify_password`, a function of
/// the two arguments alone.
pub uninterp spec fn digest_verifies(secret: Seq<char>, digest: Seq<char>) -> bool;

/// Relies on `argon2::Argon2::hash_password` with a fresh 16-byte salt
/// drawn through the operating-system generator's fallible path: the
/// returned string is in the self-describing password-hash format, and
/// re-checking the same secret against it succeeds (same salt, same
/// parameters, same output). A generator or encoding failure is an error,
/// never a panic.
#[verifier::external_body]
fn argon2_hash(secret: &str) -> (r: Result<String, AppError>)
    ensures
        r matches Ok(digest) ==> digest_well_formed(digest@) && digest_verifies(
            secret@,
            digest@,
        ),
        r matches Err(e) ==> e == AppError::HashingError,
{
    let mut bytes = [0u8; 16];
    if rand_core::OsRng.try_fill_bytes(&mut bytes).is_err() {
        return Err(AppError::HashingError);
    }
    match SaltString::encode_b64(&bytes) {
        Ok(salt) => match argon2::Argon2::default().hash_password(secret.as_bytes(), &salt) {
            Ok(hash) => Ok(hash.to_string()),
            Err(_) => Err(AppError::HashingError),
        },
        Err(_) => Err(AppError::HashingError),
    }
}

/// Relies on `argon2::password_hash::PasswordHash::new` to parse the digest
/// and on `argon2::Argon2::verify_password` to re-hash and compare:
/// a digest that does not parse (or carries unsupported parameters) is an
/// error, a parsed one yields exactly the comparison's outcome.
#[verifier::external_body]
fn argon2_verify(secret: &str, digest: &str) -> (r: Result<bool, AppError>)
    ensures
        r is Ok <==> digest_well_formed(digest@),
        r matches Ok(b) ==> b == digest_verifies(secret@, digest@),
        r matches Err(e) ==> e == AppError::HashingError,
{
    match PasswordHash::new(digest) {
        Ok(parsed) => match argon2::Argon2::default().verify_password(secret.as_bytes(), &parsed) {
            Ok(()) => Ok(true),
            Err(argon2::password_hash::Error::Password) => Ok(false),
            Err(_) => Err(AppError::HashingError),
        },
        Err(_) => Err(AppError::HashingError),
    }
}

/// Turns a plaintext secret into a salted digest string. A fresh salt is
/// drawn on every call, so two digests of the same secret differ; any digest
/// returned here is well formed and verifies against the secret it was made
/// from. Fails only on an internal failure of the hashing primitive, never
/// on the secret's content.
pub fn hash(secret: &str) -> (r: Result<String, AppError>)
    ensures
        r matches Ok(digest) ==> digest_well_formed(digest@) && digest_verifies(
            secret@,
            digest@,
        ),
        r matches Err(e) ==> e == AppError::HashingError,
{
    argon2_hash(secret)
}

/// Checks a plaintext secret against a stored digest. A malformed digest is
/// a `HashingError` (a corrupt record, not a wrong secret); a well-formed
/// one yields `Ok` with exactly the comparison's outcome.
pub fn verify(secret: &str, digest: &str) -> (r: Result<bool, AppError>)
    ensures
        r is Ok <==> digest_well_formed(digest@),
        r matches Ok(b) ==> b == digest_verifies(secret@, digest@),
        r matches Err(e) ==> e == AppError::HashingError,
{
    argon2_verify(secret, digest)
}

} // verus!
