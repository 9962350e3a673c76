use vstd::prelude::*;
use crate::prelude::ValidationError;

verus! {

/// The outcome of checking `password` against the stored bcrypt `hash`:
/// `Some(matches)` for a well-formed hash, `None` for a malformed one.
pub uninterp spec fn bcrypt_verdict(password: Seq<char>, hash: Seq<char>) -> Option<bool>;

#[verifier::external_type_specification]
#[verifier::external_body]
pub struct ExBcryptError(bcrypt::BcryptError);

/// Work factor handed to bcrypt: 2^10 rounds of key expansion.
pub const HASH_COST: u32 = 10;

/// Fewest characters a password may have.
pub const MIN_PASSWORD_CHARS: usize = 5;

/// Why a credential operation failed.
#[derive(Debug, Clone, Copy, PartialEq, Eq, Structural)]
pub enum CredentialError {
    /// The stored hash is not a well-formed bcrypt hash.
    MalformedHash,
    /// The hashing primitive failed (for instance, no system randomness for the salt).
    HashFailed,
}

pub open spec fn is_upper(c: char) -> bool {
    'A' <= c && c <= 'Z'
}

pub open spec fn is_digit(c: char) -> bool {
    '0' <= c && c <= '9'
}

/// The password policy: at least five characters, among them an ASCII
/// uppercase letter and an ASCII digit.
pub open spec fn password_is_strong(p: Seq<char>) -> bool {
    &&& p.len() >= MIN_PASSWORD_CHARS
    &&& exists|i: int| 0 <= i < p.len() && is_upper(#[trigger] p[i])
    &&& exists|i: int| 0 <= i < p.len() && is_digit(#[trigger] p[i])
}

/// Relies on bcrypt::hash: with a cost in 4..=31 it fails only when no salt
/// can be drawn; its output is the 60-character form `$2b$<cost>$<salt><hash>`,
/// which bcrypt::verify accepts for the same password.
#[verifier::external_body]
fn bcrypt_hash(password: &str, cost: u32) -> (r: Result<String, bcrypt::BcryptError>)
    requires
        4 <= cost <= 31,
    ensures
        r matches Ok(h) ==> h@.len() == 60 && bcrypt_verdict(password@, h@) == Some(true),
{
    bcrypt::hash(password, cost)
}

/// Relies on bcrypt::verify: it recomputes the hash with the salt and cost
/// read from `hash`, a function of its two arguments; a hash that is not
/// 60 characters long is rejected as malformed.
#[verifier::external_body]
fn bcrypt_verify(password: &str, hash: &str) -> (r: Result<bool, bcrypt::BcryptError>)
    ensures
        r matches Ok(b) ==> bcrypt_verdict(password@, hash@) == Some(b),
        r is Err ==> bcrypt_verdict(password@, hash@) is None,
        hash@.len() != 60 ==> r is Err,
{
    bcrypt::verify(password, hash)
}

/// Checks the password policy.
pub fn validate_password(password: &str) -> (r: Result<(), ValidationError>)
    ensures
        r is Ok <==> password_is_strong(password@),
        r matches Err(e) ==> e == ValidationError::WeakPassword,
{
    let n = password.unicode_len();
    let mut has_upper = false;
    let mut has_digit = false;
    let mut i: usize = 0;
    while i < n
        invariant
            n == password@.len(),
            i <= n,
            has_upper <==> exists|j: int| 0 <= j < i && is_upper(#[trigger] password@[j]),
            has_digit <==> exists|j: int| 0 <= j < i && is_digit(#[trigger] password@[j]),
        decreases n - i,
    {
        let c = password.get_char(i);
        if 'A' <= c && c <= 'Z' {
            has_upper = true;
        }
        if '0' <= c && c <= '9' {
            has_digit = true;
        }
        i = i + 1;
    }
    if n >= MIN_PASSWORD_CHARS && has_upper && has_digit {
        Ok(())
    } else {
        Err(ValidationError::WeakPassword)
    }
}

/// Produces a salted bcrypt hash of the password. The salt is random, so two
/// calls on one password give different hashes; each verifies against it.
pub fn hash_password(password: &str) -> (r: Result<String, CredentialError>)
    ensures
        r matches Ok(h) ==> h@.len() == 60 && bcrypt_verdict(password@, h@) == Some(true),
        r matches Err(e) ==> e == CredentialError::HashFailed,
{
    match bcrypt_hash(password, HASH_COST) {
        Ok(h) => Ok(h),
        Err(_) => Err(CredentialError::HashFailed),
    }
}

/// Checks a password against a stored hash. A hash that bcrypt cannot read
/// is reported as `MalformedHash`.
pub fn verify_password_from_hash(password: &str, hash: &str) -> (r: Result<bool, CredentialError>)
    ensures
        bcrypt_verdict(password@, hash@) matches Some(b) ==> r == Ok::<bool, CredentialError>(b),
        bcrypt_verdict(password@, hash@) is None ==> r == Err::<bool, CredentialError>(
            CredentialError::MalformedHash,
        ),
        hash@.len() != 60 ==> r == Err::<bool, CredentialError>(CredentialError::MalformedHash),
{
    match bcrypt_verify(password, hash) {
        Ok(b) => Ok(b),
        Err(_) => Err(CredentialError::MalformedHash),
    }
}

} // verus!
