//! Opaque identifiers and bearer tokens, drawn from the operating-system
//! random generator through the `uuid` crate's builder.
//!
//! An account identifier is carried as its 128-bit value; `uuid_string`
//! renders it in the usual hyphenated form. A session token is minted
//! directly in that textual form and never derived from account data.
//! Random bytes are drawn through the generator's fallible path, so a
//! generator failure surfaces as an error, never a panic.

use vstd::prelude::*;

use argon2::password_hash::rand_core::{OsRng, RngCore};

use crate::errors::AppError;

verus! {

/// The hyphenated textual form of the 128-bit identifier `id`. Names the
/// result of the `uuid` crate's hyphenated encoding, a function of the
/// identifier alone.
pub uninterp spec fn uuid_text(id: u128) -> Seq<char>;

/// Relies on `uuid::Uuid::from_u128` and the hyphenated `Display` encoding:
/// the result is the 36-character textual form of `id` (32 hexadecimal
/// digits and 4 hyphens, as the crate documents).
#[verifier::external_body]
pub(crate) fn uuid_string(id: u128) -> (r: String)
    ensures
        r@ == uuid_text(id),
        r@.len() == 36,
{
    uuid::Uuid::from_u128(id).to_string()
}

/// Relies on the operating-system generator's fallible path and
/// `uuid::Builder::from_random_bytes`: a fresh random version-4
/// identifier. Nothing can be promised of a random value; a generator
/// failure is an error.
#[verifier::external_body]
pub(crate) fn fresh_id() -> (r: Result<u128, AppError>)
    ensures
        r matches Err(e) ==> e == AppError::HashingError,
{
    let mut bytes = [0u8; 16];
    match OsRng.try_fill_bytes(&mut bytes) {
        Ok(()) => Ok(uuid::Builder::from_random_bytes(bytes).into_uuid().as_u128()),
        Err(_) => Err(AppError::HashingError),
    }
}

/// Relies on the operating-system generator's fallible path,
/// `uuid::Builder::from_random_bytes` and the hyphenated encoding: a fresh
/// random token in 36-character textual form. Beyond its length nothing is
/// promised of a random value; a generator failure is an error.
#[verifier::external_body]
pub(crate) fn fresh_token() -> (r: Result<String, AppError>)
    ensures
        r matches Ok(t) ==> t@.len() == 36,
        r matches Err(e) ==> e == AppError::HashingError,
{
    let mut bytes = [0u8; 16];
    match OsRng.try_fill_bytes(&mut bytes) {
        Ok(()) => Ok(uuid::Builder::from_random_bytes(bytes).into_uuid().to_string()),
        Err(_) => Err(AppError::HashingError),
    }
}

} // verus!
