//! Salted, deliberately slow digests of passwords, made and checked with
//! `bcrypt`.

use vstd::prelude::*;
use vstd::string::StringExecFns;

use crate::error::AppError;
use crate::error::AppResult;

verus! {

/// The work factor of every digest made here: two to this power rounds of
/// key setup.
pub const HASH_COST: u32 = 12;

/// The error type of the `bcrypt` crate.
#[verifier::external_type_specification]
#[verifier::external_body]
pub struct ExBcryptError(bcrypt::BcryptError);

/// What `bcrypt::verify` says of a password and a digest: whether the digest
/// is one of the password; `None` where the digest is no bcrypt digest.
pub uninterp spec fn bcrypt_verdict(password: Seq<char>, digest: Seq<char>) -> Option<bool>;

/// The decimal digit for a value below ten.
pub open spec fn digit(value: int) -> char {
    ((48 + value) as u8) as char
}

/// What every digest made at the work factor `cost` starts with: the version
/// `2b` and the work factor in two digits, each behind a dollar sign, and a
/// dollar sign after them.
pub open spec fn digest_opening(cost: u32) -> Seq<char> {
    "$2b$"@ + seq![digit(cost as int / 10), digit(cost as int % 10)] + "$"@
}

/// The text is a digest made at the work factor `cost`, as far as its form
/// goes: the opening for that work factor, and sixty characters in all.
pub open spec fn digest_form(digest: Seq<char>, cost: u32) -> bool {
    digest.len() == 60 && digest_opening(cost).is_prefix_of(digest)
}

/// `bcrypt::verify` has a verdict on the digest whatever the password: the
/// digest is a bcrypt digest.
pub open spec fn judges_every_password(digest: Seq<char>) -> bool {
    forall|password: Seq<char>| (#[trigger] bcrypt_verdict(password, digest)) is Some
}

/// Calls `bcrypt::hash`, which draws a fresh salt from the system's random
/// source: two calls on one password differ. It makes a digest only at a
/// work factor from 4 to 31, and writes it as the version `2b`, the work
/// factor in two digits, and the salt and the hash in 22 and 31 characters.
/// Of every digest that comes out, `bcrypt::verify` finds that it is one of
/// the password, because it computes the digest anew with the salt and the
/// work factor written in it; and it has a verdict on the digest for any
/// other password too, because it fails on what the digest holds alone.
#[verifier::external_body]
fn bcrypt_hash(password: &str, cost: u32) -> (digest: Result<String, bcrypt::BcryptError>)
    ensures
        digest matches Ok(d) ==> bcrypt_verdict(password@, d@) == Some(true),
        digest matches Ok(d) ==> 4 <= cost <= 31 && digest_form(d@, cost),
        digest matches Ok(d) ==> judges_every_password(d@),
{
    bcrypt::hash(password, cost)
}

/// Calls `bcrypt::verify`. The result is a function of the password and the
/// digest; the comparison takes the same time whatever the digests hold.
#[verifier::external_body]
fn bcrypt_verify(password: &str, digest: &str) -> (verdict: Result<bool, bcrypt::BcryptError>)
    ensures
        verdict matches Ok(same) ==> bcrypt_verdict(password@, digest@) == Some(same),
        verdict is Err ==> bcrypt_verdict(password@, digest@) is None,
{
    bcrypt::verify(password, digest)
}

/// An internal failure whose text is `opening` and then the hasher's own
/// description of what went wrong.
fn internal_failure(opening: &str, error: &bcrypt::BcryptError) -> (failure: AppError)
    ensures
        failure@.is_internal(opening@),
{
    let detail = error.to_string();
    let text = String::from_str(opening).concat(detail.as_str());
    AppError::InternalError(text)
}

/// What `hash_password` makes of the hasher's answer: the digest as it is,
/// or an internal failure.
pub fn hashing_result(answer: Result<String, bcrypt::BcryptError>) -> (digest: AppResult<String>)
    ensures
        answer matches Ok(made) ==> digest matches Ok(d) && d@ == made@,
        answer is Err ==> digest is Err,
        digest matches Err(e) ==> e@.is_internal("Failed to hash password: "@),
{
    match answer {
        Ok(made) => Ok(made),
        Err(error) => Err(internal_failure("Failed to hash password: ", &error)),
    }
}

/// What `verify_password` makes of the hasher's answer: the verdict as it
/// is, or an internal failure.
pub fn checking_result(answer: Result<bool, bcrypt::BcryptError>) -> (verdict: AppResult<bool>)
    ensures
        answer matches Ok(same) ==> verdict == Ok::<bool, AppError>(same),
        answer is Err ==> verdict is Err,
        verdict matches Err(e) ==> e@.is_internal("Failed to verify password: "@),
{
    match answer {
        Ok(same) => Ok(same),
        Err(error) => Err(internal_failure("Failed to verify password: ", &error)),
    }
}

/// Makes a salted bcrypt digest of the password at the work factor
/// `HASH_COST`. The digest differs from call to call, and each one verifies
/// against the password. It fails only where the hasher itself fails.
pub fn hash_password(password: &str) -> (digest: AppResult<String>)
    ensures
        digest matches Ok(d) ==> bcrypt_verdict(password@, d@) == Some(true),
        digest matches Ok(d) ==> digest_form(d@, HASH_COST),
        digest matches Ok(d) ==> "$2b$12$"@.is_prefix_of(d@),
        digest matches Ok(d) ==> judges_every_password(d@),
        digest matches Err(e) ==> e@.is_internal("Failed to hash password: "@),
{
    proof {
        lemma_opening_at_hash_cost();
    }
    hashing_result(bcrypt_hash(password, HASH_COST))
}

/// At the work factor of this library every digest starts with `$2b$12$`.
pub proof fn lemma_opening_at_hash_cost()
    ensures
        digest_opening(HASH_COST) == "$2b$12$"@,
{
    reveal_strlit("$2b$");
    reveal_strlit("$");
    reveal_strlit("$2b$12$");
    assert(digest_opening(HASH_COST) =~= "$2b$12$"@);
}

/// Tells whether `hash` is a digest of `password`. It fails where `hash` is
/// no bcrypt digest at all.
pub fn verify_password(password: &str, hash: &str) -> (verdict: AppResult<bool>)
    ensures
        match bcrypt_verdict(password@, hash@) {
            Some(same) => verdict == Ok::<bool, AppError>(same),
            None => verdict matches Err(e) && e@.is_internal("Failed to verify password: "@),
        },
{
    checking_result(bcrypt_verify(password, hash))
}

} // verus!
