//! Password hashing and verification. The hashing itself is done by the
//! `password-auth` crate; this module states what the rest of the library
//! relies on and turns the crate's answers into the library's results.

use vstd::prelude::*;
use crate::domain::{password_fault, UserPassword, MAX_PASSWORD_LEN};

verus! {

/// The three answers of a password verification.
#[derive(Clone, Copy, Debug, PartialEq, Eq, Structural)]
pub enum PasswordCheck {
    /// The password belongs to the hash.
    Match,
    /// The hash is well formed and the password does not belong to it.
    Mismatch,
    /// The stored hash could not be parsed.
    Malformed,
}

/// Why a hash could not be produced.
#[derive(Clone, Copy, Debug, PartialEq, Eq, Structural)]
pub enum HashingError {
    /// The worker that was to hash did not deliver.
    WorkerUnavailable,
}

/// Why a verification gave no verdict. A wrong password is a verdict, not an
/// error.
#[derive(Clone, Copy, Debug, PartialEq, Eq, Structural)]
pub enum VerificationError {
    /// The stored hash is corrupt.
    MalformedHash,
    /// The worker that was to verify did not deliver.
    WorkerUnavailable,
}

/// The answer of `password_auth::verify_password` for a password and a
/// stored hash. It is a function of the two texts alone.
pub uninterp spec fn verification(password: Seq<char>, hash: Seq<char>) -> PasswordCheck;

/// Calls `password_auth::generate_hash`, which salts at random, so nothing
/// is said of the text that comes back but that verifying the same password
/// against it succeeds: the hash text keeps the salt and the parameters,
/// and verification computes the hash again from them and compares. The
/// crate panics if hashing fails, which its default parameters do only for
/// inputs far longer than the bound required here.
#[verifier::external_body]
pub(crate) fn generate_hash(password: &str) -> (hash: String)
    requires
        password@.len() <= MAX_PASSWORD_LEN,
    ensures
        verification(password@, hash@) == PasswordCheck::Match,
{
    password_auth::generate_hash(password)
}

/// Calls `password_auth::verify_password` and names its answer: `Ok` is a
/// match, `PasswordInvalid` a mismatch, `Parse` a malformed hash.
#[verifier::external_body]
pub(crate) fn verify_password(password: &str, hash: &str) -> (check: PasswordCheck)
    ensures
        check == verification(password@, hash@),
{
    match password_auth::verify_password(password, hash) {
        Ok(()) => PasswordCheck::Match,
        Err(password_auth::VerifyError::PasswordInvalid) => PasswordCheck::Mismatch,
        Err(password_auth::VerifyError::Parse(_)) => PasswordCheck::Malformed,
    }
}

/// What a verification reports for each answer of the check.
pub open spec fn verdict(check: PasswordCheck) -> Result<bool, VerificationError> {
    match check {
        PasswordCheck::Match => Ok(true),
        PasswordCheck::Mismatch => Ok(false),
        PasswordCheck::Malformed => Err(VerificationError::MalformedHash),
    }
}

/// Hashes a validated password. The hash verifies against that password.
pub fn hash(password: &UserPassword) -> (h: String)
    ensures
        verification(password@, h@) == PasswordCheck::Match,
{
    let text = password.expose();
    assert(password_fault(text@) is None);
    generate_hash(text)
}

/// The verdict for each answer: a mismatch is `Ok(false)`, a malformed
/// hash an error.
pub fn judge(check: PasswordCheck) -> (r: Result<bool, VerificationError>)
    ensures
        r == verdict(check),
{
    match check {
        PasswordCheck::Match => Ok(true),
        PasswordCheck::Mismatch => Ok(false),
        PasswordCheck::Malformed => Err(VerificationError::MalformedHash),
    }
}

/// Verifies `password` against a stored `hash`.
pub fn verify(password: &str, hash: &str) -> (r: Result<bool, VerificationError>)
    ensures
        r == verdict(verification(password@, hash@)),
{
    judge(verify_password(password, hash))
}

/// The result of a hashing job handed to a worker: the hash if the worker
/// delivered one, an error if it was lost.
pub fn hashed(job: Option<String>) -> (r: Result<String, HashingError>)
    ensures
        r == match job {
            Some(h) => Ok::<String, HashingError>(h),
            None => Err(HashingError::WorkerUnavailable),
        },
{
    match job {
        Some(h) => Ok(h),
        None => Err(HashingError::WorkerUnavailable),
    }
}

/// The result of a verification job handed to a worker: its verdict if
/// the worker delivered one, an error if it was lost.
pub fn verified(job: Option<Result<bool, VerificationError>>) -> (r: Result<
    bool,
    VerificationError,
>)
    ensures
        r == match job {
            Some(v) => v,
            None => Err(VerificationError::WorkerUnavailable),
        },
{
    match job {
        Some(v) => v,
        None => Err(VerificationError::WorkerUnavailable),
    }
}

/// A hash that `hash` gave for a password verifies against that password:
/// `verify` answers `Ok(true)`, and so does a worker that delivers.
pub proof fn hash_then_verify(password: Seq<char>, hash: Seq<char>)
    requires
        verification(password, hash) == PasswordCheck::Match,
    ensures
        verdict(verification(password, hash)) == Ok::<bool, VerificationError>(true),
        verdict(verification(password, hash)) != Ok::<bool, VerificationError>(false),
{
}

} // verus!
