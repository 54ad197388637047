use argon2::password_hash::{PasswordHasher, PasswordVerifier};
use vstd::prelude::*;
use vstd::string::StringSliceAdditionalSpecFns;

verus! {

/// The longest password, in UTF-8 bytes, that Argon2 accepts.
pub const MAX_PASSWORD_BYTES: usize = 0xFFFF_FFFF;

/// Whether Argon2 verification accepts `password` against the PHC-format
/// `digest`; false when `digest` does not parse.
pub uninterp spec fn password_matches(password: Seq<char>, digest: Seq<char>) -> bool;

/// Relies on argon2's `PasswordHasher::hash_password` with default parameters
/// and a salt from `rand_core::OsRng`: the PHC string it returns verifies
/// against the same password. Passwords over `MAX_PASSWORD_BYTES` are refused
/// by Argon2 and are excluded here.
#[verifier::external_body]
pub fn hash_password(password: &str) -> (r: String)
    requires
        password.spec_bytes().len() <= MAX_PASSWORD_BYTES,
    ensures
        password_matches(password@, r@),
{
    let salt = argon2::password_hash::SaltString::generate(&mut rand_core::OsRng);
    argon2::Argon2::default()
        .hash_password(password.as_bytes(), &salt)
        .expect("Argon2 hashing with default parameters does not fail")
        .to_string()
}

/// Relies on argon2's `PasswordHash::new` and `PasswordVerifier::verify_password`
/// with default parameters: the outcome depends on the password and the digest alone.
#[verifier::external_body]
pub fn verify_password(password: &str, hash: &str) -> (r: bool)
    ensures
        r == password_matches(password@, hash@),
{
    match argon2::password_hash::PasswordHash::new(hash) {
        Ok(parsed) => argon2::Argon2::default().verify_password(password.as_bytes(), &parsed).is_ok(),
        Err(_) => false,
    }
}

} // verus!
