//! Password hashing and checking with Argon2 (default parameters: Argon2id,
//! version 19, m=19456, t=2, p=1), in the PHC string format.

use vstd::prelude::*;

verus! {

/// The error type of the `password-hash` crate.
#[verifier::external_type_specification]
#[verifier::external_body]
pub struct ExPasswordHashError(argon2::password_hash::Error);

/// The PHC string that `Argon2::default().hash_password` yields for a password
/// and a salt given by its raw bytes (encoded with `SaltString::encode_b64`).
pub uninterp spec fn argon2_phc_string(password: Seq<char>, salt: Seq<u8>) -> Seq<char>;

/// Whether `PasswordHash::new` accepts a text as a PHC string.
pub uninterp spec fn phc_string_parses(phc: Seq<char>) -> bool;

/// Whether `Argon2::default().verify_password` accepts a password against a
/// PHC string.
pub uninterp spec fn argon2_accepts(password: Seq<char>, phc: Seq<char>) -> bool;

/// The number of salt bytes drawn for a new password (the recommended length).
pub open spec fn salt_len() -> nat {
    16
}

/// A password short enough for Argon2 whatever its encoding: at most
/// 0x3FFF_FFFF characters is at most 0xFFFF_FFFC UTF-8 bytes, within
/// Argon2's limit of 0xFFFF_FFFF bytes.
pub open spec fn password_within_limit(password: Seq<char>) -> bool {
    password.len() <= 0x3FFF_FFFF
}

/// How every PHC string made with the default parameters begins.
pub open spec fn argon2_phc_prefix() -> Seq<char> {
    "$argon2id$v=19$m=19456,t=2,p=1$"@
}

/// Whether a text begins with the default Argon2 PHC prefix.
pub open spec fn has_argon2_prefix(phc: Seq<char>) -> bool {
    phc.len() > argon2_phc_prefix().len() && phc.subrange(0, argon2_phc_prefix().len() as int) == argon2_phc_prefix()
}

/// Sixteen random bytes from `rand::thread_rng` (`RngCore::fill_bytes`).
/// Nothing is claimed of them: they are random.
#[verifier::external_body]
pub(crate) fn random_salt() -> (salt: [u8; 16]) {
    let mut salt = [0u8; 16];
    rand::RngCore::fill_bytes(&mut rand::thread_rng(), &mut salt);
    salt
}

/// Encodes a 16-byte salt with `SaltString::encode_b64`, hashes a password
/// under it with `Argon2::default().hash_password`, and renders the result as
/// a PHC string. Claims: a success is the named PHC string of the password and
/// salt, which begins with the default parameters' prefix (the algorithm,
/// version and parameters come first in the rendering, then the salt and the
/// digest); and a password within Argon2's length limit always hashes (a
/// 16-byte salt encodes to 22 B64 characters and decodes to 16 bytes, within
/// the salt limits; the only other failure is a password over 0xFFFF_FFFF
/// bytes).
#[verifier::external_body]
pub(crate) fn argon2_hash(password: &str, salt: &[u8; 16]) -> (res: Result<String, argon2::password_hash::Error>)
    ensures
        password_within_limit(password@) ==> res is Ok,
        res matches Ok(phc) ==> phc@ == argon2_phc_string(password@, salt@),
        res matches Ok(phc) ==> has_argon2_prefix(phc@),
{
    let salt = argon2::password_hash::SaltString::encode_b64(salt)?;
    let hash = argon2::PasswordHasher::hash_password(&argon2::Argon2::default(), password.as_bytes(), &salt)?;
    Ok(hash.to_string())
}

/// Parses a PHC string with `PasswordHash::new` and checks a password against
/// it with `Argon2::default().verify_password`. Claims: the parse fails exactly
/// when the text is no PHC string; otherwise the answer is the verifier's; and
/// a PHC string that `argon2_hash` made from this same password under a
/// 16-byte salt is accepted when the password is within the length limit
/// (verification recomputes the digest with the salt and parameters the
/// string carries and compares).
#[verifier::external_body]
pub(crate) fn argon2_verify(password: &str, phc: &str) -> (res: Result<bool, argon2::password_hash::Error>)
    ensures
        res is Ok <==> phc_string_parses(phc@),
        res matches Ok(accepted) ==> accepted == argon2_accepts(password@, phc@),
        password_within_limit(password@) && (exists|salt: Seq<u8>|
            salt.len() == salt_len() && argon2_phc_string(password@, salt) == phc@) ==> res matches Ok(true),
{
    let parsed = argon2::PasswordHash::new(phc)?;
    Ok(argon2::PasswordVerifier::verify_password(&argon2::Argon2::default(), password.as_bytes(), &parsed).is_ok())
}

} // verus!
