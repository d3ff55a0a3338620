//! Password hashes. The hashing itself is bcrypt's.

use vstd::prelude::*;

use crate::error::{failure, AppError, ErrorKind};

verus! {

/// The work factor of the hashes that the service stores.
pub const HASH_COST: u32 = 12;

/// Declares `bcrypt::BcryptError`. Nothing is said of what it holds:
/// every such error is reported alike.
#[verifier::external_type_specification]
#[verifier::external_body]
pub struct ExHashError(bcrypt::BcryptError);

/// What `bcrypt::verify` answers for `password` against `hash`: whether
/// they match, or nothing where it cannot read the hash.
pub uninterp spec fn bcrypt_verdict(password: Seq<char>, hash: Seq<char>) -> Option<bool>;

/// Calls `bcrypt::verify`.
///
/// Not proved: that the outcome depends on the password and the hash
/// alone.
#[verifier::external_body]
fn bcrypt_verify(password: &str, hash: &str) -> (r: Result<bool, bcrypt::BcryptError>)
    ensures
        match r {
            Ok(same) => bcrypt_verdict(password@, hash@) == Some(same),
            Err(_) => bcrypt_verdict(password@, hash@) is None,
        },
{
    bcrypt::verify(password, hash)
}

/// The work factor written into a hash: the two digits that follow the
/// scheme.
pub open spec fn cost_field(hash: Seq<char>) -> int {
    (hash[4] as int - 48) * 10 + (hash[5] as int - 48)
}

/// Calls `bcrypt::hash`, which salts the password at random.
///
/// Not proved: that it hashes only at a cost from 4 to 31; that a hash it
/// hands out has 60 characters and carries the cost in its fifth and sixth;
/// and that `bcrypt::verify` accepts it for the same password. Nothing is
/// claimed of when the call fails.
#[verifier::external_body]
fn bcrypt_hash(password: &str, cost: u32) -> (r: Result<String, bcrypt::BcryptError>)
    ensures
        r matches Ok(hash) ==> {
            &&& 4 <= cost <= 31
            &&& hash@.len() == 60
            &&& cost_field(hash@) == cost
            &&& bcrypt_verdict(password@, hash@) == Some(true)
        },
{
    bcrypt::hash(password, cost)
}

/// `password` is the one that `hash` was made of.
pub open spec fn matches_hash(password: Seq<char>, hash: Seq<char>) -> bool {
    bcrypt_verdict(password, hash) == Some(true)
}

/// What is made of the outcome of a comparison: a match only where the
/// comparison was made and found one.
pub fn matched(outcome: Result<bool, bcrypt::BcryptError>) -> (r: bool)
    ensures
        r == (outcome matches Ok(same) && same),
{
    match outcome {
        Ok(same) => same,
        Err(_) => false,
    }
}

/// What is made of the outcome of a hashing: the hash, or the words that
/// turn the password away.
pub fn stored(outcome: Result<String, bcrypt::BcryptError>) -> (r: Result<String, AppError>)
    ensures
        match outcome {
            Ok(hash) => r == Ok::<String, AppError>(hash),
            Err(_) => r matches Err(e) && e@ == failure(
                ErrorKind::BadRequest,
                "invalid password"@,
            ),
        },
{
    match outcome {
        Ok(hash) => Ok(hash),
        Err(_) => Err(AppError::bad_request("invalid password")),
    }
}

/// Lets a login pass where the password matched, and turns it away
/// otherwise.
pub fn accept_password(matched: bool) -> (r: Result<(), AppError>)
    ensures
        match r {
            Ok(()) => matched,
            Err(e) => !matched && e@ == failure(ErrorKind::Unauthorized, "invalid credentials"@),
        },
{
    if matched {
        Ok(())
    } else {
        Err(AppError::unauthorized("invalid credentials"))
    }
}

/// Decides whether `password` is the one that `hash` was made of. A hash
/// that cannot be read matches nothing.
pub fn password_matches(password: &str, hash: &str) -> (r: bool)
    ensures
        r == matches_hash(password@, hash@),
{
    matched(bcrypt_verify(password, hash))
}

/// Hashes `password` for storage, at [`HASH_COST`]: a hash handed out
/// carries that cost and is one that the password matches.
pub fn hash_password(password: &str) -> (r: Result<String, AppError>)
    ensures
        match r {
            Ok(hash) => {
                &&& matches_hash(password@, hash@)
                &&& hash@.len() == 60
                &&& cost_field(hash@) == HASH_COST
            },
            Err(e) => e@ == failure(ErrorKind::BadRequest, "invalid password"@),
        },
{
    stored(bcrypt_hash(password, HASH_COST))
}

} // verus!
