//! Password hashing, done by the `bcrypt` crate.

use vstd::prelude::*;

use crate::errors::{result_view, ServiceError, ServiceErrorView};

verus! {

/// What `bcrypt::verify` returns for a password and a stored hash:
/// `Some(matches)` where it returns `Ok(matches)`, `None` where it returns an
/// error (the hash is not a well-formed bcrypt hash, or names a cost that is
/// not allowed).
pub uninterp spec fn bcrypt_verify_outcome(password: Seq<char>, hash: Seq<char>) -> Option<bool>;

/// What a verification stands for in contracts.
pub open spec fn verified_view(verified: Result<bool, bcrypt::BcryptError>) -> Option<bool> {
    match verified {
        Ok(matches) => Some(matches),
        Err(_) => None,
    }
}

/// Calls `bcrypt::verify`, which reads cost and salt from the hash, hashes
/// the password with them and compares. Its result depends on the two texts
/// alone, and is named [`bcrypt_verify_outcome`].
#[verifier::external_body]
pub(crate) fn bcrypt_verify(password: &str, hash: &str) -> (verified: Result<
    bool,
    bcrypt::BcryptError,
>)
    ensures
        verified_view(verified) == bcrypt_verify_outcome(password@, hash@),
{
    bcrypt::verify(password, hash)
}

/// Calls `bcrypt::hash` at `bcrypt::DEFAULT_COST`. The salt is random, so
/// the hash differs from call to call; it may fail for want of randomness.
/// Claimed of every hash that comes back: `bcrypt::verify` accepts the same
/// password against it.
#[verifier::external_body]
pub(crate) fn bcrypt_hash(password: &str) -> (hashed: Result<String, bcrypt::BcryptError>)
    ensures
        hashed matches Ok(hash) ==> bcrypt_verify_outcome(password@, hash@) == Some(true),
{
    bcrypt::hash(password, bcrypt::DEFAULT_COST)
}

/// Whether `hashed` can be what hashing `password` gave: a failure (`None`),
/// or a hash against which the password verifies.
pub open spec fn hash_of(password: Seq<char>, hashed: Option<Seq<char>>) -> bool {
    hashed matches Some(hash) ==> bcrypt_verify_outcome(password, hash) == Some(true)
}

/// What a hashing stands for in contracts: the hash, or `None` for a failure.
pub open spec fn hashed_view(hashed: Result<String, ServiceError>) -> Option<Seq<char>> {
    match hashed {
        Ok(hash) => Some(hash@),
        Err(_) => None,
    }
}

/// What a verification returns to a service, for each outcome of the hasher.
pub open spec fn verification_view(outcome: Option<bool>) -> Result<bool, ServiceErrorView> {
    match outcome {
        Some(matches) => Ok(matches),
        None => Err(ServiceErrorView::HashingError),
    }
}

/// The hasher's answer to a verification as a service's answer: a failure of
/// the hasher becomes [`ServiceError::HashingError`], which holds it.
pub fn verification_result(verified: Result<bool, bcrypt::BcryptError>) -> (result: Result<
    bool,
    ServiceError,
>)
    ensures
        result_view(result) == verification_view(verified_view(verified)),
        verified matches Err(cause) ==> result matches Err(ServiceError::HashingError(held))
            && held == cause,
{
    match verified {
        Ok(matches) => Ok(matches),
        Err(cause) => Err(ServiceError::HashingError(cause)),
    }
}

/// The hasher's answer to a hashing as a service's answer: a failure of the
/// hasher becomes [`ServiceError::HashingError`], which holds it.
pub fn hashing_result(hashed: Result<String, bcrypt::BcryptError>) -> (result: Result<
    String,
    ServiceError,
>)
    ensures
        hashed matches Ok(hash) ==> result matches Ok(same) && same == hash,
        hashed matches Err(cause) ==> result matches Err(ServiceError::HashingError(held))
            && held == cause,
{
    match hashed {
        Ok(hash) => Ok(hash),
        Err(cause) => Err(ServiceError::HashingError(cause)),
    }
}

/// Whether the password matches the stored hash.
pub fn verify_password(password: &str, hash: &str) -> (result: Result<bool, ServiceError>)
    ensures
        result_view(result) == verification_view(bcrypt_verify_outcome(password@, hash@)),
{
    verification_result(bcrypt_verify(password, hash))
}

/// A fresh hash of the password, or [`ServiceError::HashingError`]. The
/// password verifies against every hash that this returns.
pub fn hash_password(password: &str) -> (result: Result<String, ServiceError>)
    ensures
        hash_of(password@, hashed_view(result)),
        result matches Err(error) ==> error@ == ServiceErrorView::HashingError,
{
    hashing_result(bcrypt_hash(password))
}

} // verus!
