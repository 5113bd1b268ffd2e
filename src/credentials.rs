use vstd::prelude::*;
use crate::error::AppError;

verus! {

/// The work factor that deployments hash passwords with.
pub const DEFAULT_COST: u32 = 12;

/// The length of a verification or reset secret.
pub const SECRET_LEN: usize = 32;

/// What bcrypt::verify answers for a password and a stored hash: `Some(b)`
/// when the hash is well formed, `None` when it is refused.
pub uninterp spec fn bcrypt_verdict(password: Seq<char>, hash: Seq<char>) -> Option<bool>;

#[verifier::external_type_specification]
#[verifier::external_body]
pub struct ExBcryptError(bcrypt::BcryptError);

/// Relies on bcrypt::hash: it refuses a cost outside 4..=31, and otherwise
/// hashes the password under a fresh random salt, so that bcrypt::verify
/// recomputes the same digest from the password and the hash (it fails only if
/// the system's randomness does).
#[verifier::external_body]
fn bcrypt_hash(password: &str, cost: u32) -> (r: Result<String, bcrypt::BcryptError>)
    ensures
        r is Ok ==> bcrypt_verdict(password@, r->Ok_0@) == Some(true),
        !(4 <= cost <= 31) ==> r is Err,
{
    bcrypt::hash(password, cost)
}

/// Relies on bcrypt::verify: a function of the password and the hash alone,
/// which fails on a malformed hash.
#[verifier::external_body]
fn bcrypt_verify(password: &str, hash: &str) -> (r: Result<bool, bcrypt::BcryptError>)
    ensures
        r matches Ok(b) ==> bcrypt_verdict(password@, hash@) == Some(b),
        r is Err ==> bcrypt_verdict(password@, hash@) is None,
{
    bcrypt::verify(password, hash)
}

/// Relies on rand's Alphanumeric distribution sampled from the thread-local
/// generator: `len` characters, each an ASCII letter or digit.
#[verifier::external_body]
fn random_alphanumeric(len: usize) -> (r: String)
    ensures
        r@.len() == len,
        forall|i: int| 0 <= i < len ==> is_alphanumeric(#[trigger] r@[i]),
{
    rand::distributions::DistString::sample_string(
        &rand::distributions::Alphanumeric,
        &mut rand::thread_rng(),
        len,
    )
}

pub open spec fn is_alphanumeric(c: char) -> bool {
    ('a' <= c <= 'z') || ('A' <= c <= 'Z') || ('0' <= c <= '9')
}

/// A well-formed verification or reset secret.
pub open spec fn is_secret(s: Seq<char>) -> bool {
    s.len() == SECRET_LEN && forall|i: int| 0 <= i < s.len() ==> is_alphanumeric(#[trigger] s[i])
}

/// What hashing a password may give: a hash that verifies against it, or a
/// `Bcrypt` error, which a work factor outside 4..=31 always gives.
pub open spec fn hash_outcome(password: Seq<char>, cost: u32, r: Result<String, AppError>) -> bool {
    &&& r matches Ok(h) ==> bcrypt_verdict(password, h@) == Some(true)
    &&& r matches Err(e) ==> e is Bcrypt
    &&& !(4 <= cost <= 31) ==> r is Err
}

/// What checking a password against a stored hash gives: bcrypt's verdict, or
/// a `Bcrypt` error exactly when the hash is malformed.
pub open spec fn verify_outcome(password: Seq<char>, hash: Seq<char>, r: Result<bool, AppError>) -> bool {
    match r {
        Ok(b) => bcrypt_verdict(password, hash) == Some(b),
        Err(e) => e is Bcrypt && bcrypt_verdict(password, hash) is None,
    }
}

/// Hashes a password with the given work factor. Fails with `Bcrypt` when the
/// work factor is outside 4..=31 or the salt cannot be drawn; a hash that comes
/// back verifies against the password.
pub fn hash_password(password: &str, cost: u32) -> (r: Result<String, AppError>)
    ensures
        hash_outcome(password@, cost, r),
{
    match bcrypt_hash(password, cost) {
        Ok(h) => Ok(h),
        Err(_) => Err(AppError::Bcrypt(String::from_str("password hashing failed"))),
    }
}

/// Checks a password against a stored hash; a malformed hash is an error.
pub fn verify_password(password: &str, hash: &str) -> (r: Result<bool, AppError>)
    ensures
        verify_outcome(password@, hash@, r),
{
    match bcrypt_verify(password, hash) {
        Ok(b) => Ok(b),
        Err(_) => Err(AppError::Bcrypt(String::from_str("malformed password hash"))),
    }
}

/// A fresh 32-character alphanumeric secret for email verification or
/// password reset.
pub fn generate_verification_token() -> (r: String)
    ensures
        is_secret(r@),
{
    random_alphanumeric(SECRET_LEN)
}

/// A password verifies against every hash that hashing it gives, whatever
/// salt was drawn: checking it can only answer `Ok(true)`.
pub proof fn lemma_password_round_trip(
    password: Seq<char>,
    cost: u32,
    hashed: Result<String, AppError>,
    checked: Result<bool, AppError>,
)
    requires
        hash_outcome(password, cost, hashed),
        hashed is Ok,
        verify_outcome(password, hashed->Ok_0@, checked),
    ensures
        checked == Ok::<bool, AppError>(true),
{
}

} // verus!
