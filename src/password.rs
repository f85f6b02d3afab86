use vstd::prelude::*;

verus! {

#[verifier::external_type_specification]
#[verifier::external_body]
pub struct ExBcryptError(bcrypt::BcryptError);

/// What `bcrypt::verify` answers for a password and a stored hash: `None`
/// where the hash is malformed, else whether the password matches it.
pub uninterp spec fn bcrypt_verdict(password: Seq<char>, hash: Seq<char>) -> Option<bool>;

/// Relies on bcrypt::hash at bcrypt's default cost: a fresh random salt is
/// drawn, and a hash it returns is one that bcrypt::verify accepts for the
/// same password (both truncate the password the same way).
#[verifier::external_body]
fn bcrypt_hash(password: &str) -> (r: Result<String, bcrypt::BcryptError>)
    ensures
        r matches Ok(h) ==> bcrypt_verdict(password@, h@) == Some(true),
{
    bcrypt::hash(password, bcrypt::DEFAULT_COST)
}

/// Relies on bcrypt::verify: it re-derives the hash from the password with
/// the stored salt and cost and compares in constant time; it fails only on
/// a malformed stored hash.
#[verifier::external_body]
fn bcrypt_verify(password: &str, hash: &str) -> (r: Result<bool, bcrypt::BcryptError>)
    ensures
        r is Ok <==> bcrypt_verdict(password@, hash@) is Some,
        r matches Ok(b) ==> bcrypt_verdict(password@, hash@) == Some(b),
{
    bcrypt::verify(password, hash)
}

/// Hashes a password with a random salt. Any hash returned verifies the
/// password; a failure of the hasher is an internal error.
pub fn hash_password(password: &str) -> (r: Result<String, ()>)
    ensures
        r matches Ok(h) ==> bcrypt_verdict(password@, h@) == Some(true),
{
    match bcrypt_hash(password) {
        Ok(h) => Ok(h),
        Err(_) => Err(()),
    }
}

/// Checks a password against a stored hash: `Ok(true)` on a match,
/// `Ok(false)` on a mismatch, `Err(())` where the stored hash is malformed.
pub fn verify_password(password: &str, hash: &str) -> (r: Result<bool, ()>)
    ensures
        r is Err <==> bcrypt_verdict(password@, hash@) is None,
        r matches Ok(b) ==> bcrypt_verdict(password@, hash@) == Some(b),
{
    match bcrypt_verify(password, hash) {
        Ok(b) => Ok(b),
        Err(_) => Err(()),
    }
}

} // verus!
