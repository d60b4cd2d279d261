use argon2::password_hash::rand_core::OsRng;
use argon2::password_hash::{PasswordHash, PasswordHasher, PasswordVerifier, SaltString};
use argon2::Argon2;
use vstd::prelude::*;
use vstd::utf8::encode_utf8;

verus! {

/// Whether Argon2 accepts the password bytes against the PHC string: the
/// string parses, and rehashing the password with its algorithm, parameters
/// and salt gives its digest.
pub uninterp spec fn argon2_accepts(password: Seq<u8>, phc: Seq<char>) -> bool;

/// Whether `password`, UTF-8 encoded, verifies against the PHC string `phc`.
pub open spec fn password_matches(password: Seq<char>, phc: Seq<char>) -> bool {
    argon2_accepts(encode_utf8(password), phc)
}

/// Relies on argon2's `SaltString::generate` (a 16-byte salt drawn from
/// `OsRng`) and `PasswordHasher::hash_password` with default parameters: the
/// only refusal that depends on the input is a password longer than
/// `0xFFFF_FFFF` bytes. The PHC string it returns starts with `$` and carries
/// algorithm, parameters and salt, so it verifies against the password it was
/// made from.
#[verifier::external_body]
fn argon2_hash(password: &[u8]) -> (r: Option<String>)
    ensures
        r is Some <==> password@.len() <= MAX_PASSWORD_BYTES,
        r matches Some(h) ==> argon2_accepts(password@, h@),
        r matches Some(h) ==> h@.len() > 0 && h@[0] == '$',
{
    let salt = SaltString::generate(&mut OsRng);
    Argon2::default().hash_password(password, &salt).ok().map(|h| h.to_string())
}

/// Relies on argon2's `PasswordHash::new`, which parses the PHC string, and
/// `PasswordVerifier::verify_password`, which rehashes with the parsed
/// parameters and compares digests. A string that does not parse is refused;
/// in particular one that is empty or does not start with `$`.
#[verifier::external_body]
fn argon2_verify(password: &[u8], phc: &str) -> (r: bool)
    ensures
        r == argon2_accepts(password@, phc@),
        phc@.len() == 0 || phc@[0] != '$' ==> !r,
{
    match PasswordHash::new(phc) {
        Ok(h) => Argon2::default().verify_password(password, &h).is_ok(),
        Err(_) => false,
    }
}

/// Longest password, in UTF-8 bytes, that Argon2 accepts.
pub const MAX_PASSWORD_BYTES: u64 = 0xFFFF_FFFF;

/// Hashes a password with a fresh random salt. A hash comes back for every
/// password of at most `MAX_PASSWORD_BYTES` bytes, and it verifies against
/// the same password.
pub fn hash_password(password: &str) -> (r: Option<String>)
    ensures
        r is Some <==> encode_utf8(password@).len() <= MAX_PASSWORD_BYTES,
        r matches Some(h) ==> password_matches(password@, h@),
        r matches Some(h) ==> h@.len() > 0 && h@[0] == '$',
{
    argon2_hash(password.as_bytes())
}

/// Verifies a password against a stored PHC string. A malformed stored string
/// fails closed: the answer is `false`, never a panic.
pub fn verify_password(password: &str, phc: &str) -> (r: bool)
    ensures
        r == password_matches(password@, phc@),
        phc@.len() == 0 || phc@[0] != '$' ==> !r,
{
    argon2_verify(password.as_bytes(), phc)
}

} // verus!
