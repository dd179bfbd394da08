use argon2::{PasswordHasher, PasswordVerifier};
use password_hash::rand_core::OsRng;
use vstd::prelude::*;

verus! {

/// Whether a text parses as a PHC password-hash string.
pub uninterp spec fn phc_parses(hash: Seq<char>) -> bool;

/// Whether Argon2 accepts a password against a parsed PHC string, computing
/// with the parameters and salt that the string carries.
pub uninterp spec fn argon2_accepts(password: Seq<char>, hash: Seq<char>) -> bool;

/// The PHC string of the default Argon2id hash of a password with a given
/// base64 salt.
pub uninterp spec fn argon2_phc_of(password: Seq<char>, salt: Seq<char>) -> Seq<char>;

/// Relies on `OsRng::try_fill_bytes` and `SaltString::encode_b64`: sixteen
/// random bytes from the operating system in base64, or `None` when the
/// entropy source fails. Nothing is known of the bytes in advance.
#[verifier::external_body]
fn generate_salt() -> Option<String> {
    let mut bytes = vec![0u8; password_hash::Salt::RECOMMENDED_LENGTH];
    password_hash::rand_core::RngCore::try_fill_bytes(&mut OsRng, &mut bytes).ok()?;
    password_hash::SaltString::encode_b64(&bytes).ok().map(|s| s.as_str().to_string())
}

/// Relies on `SaltString::from_b64` and `Argon2::default().hash_password`:
/// when both succeed, the PHC string depends on the password and the salt
/// alone.
#[verifier::external_body]
fn argon2_hash(plain: &str, salt: &str) -> (r: Option<String>)
    ensures
        r matches Some(h) ==> h@ == argon2_phc_of(plain@, salt@),
{
    let salt = password_hash::SaltString::from_b64(salt).ok()?;
    argon2::Argon2::default().hash_password(plain.as_bytes(), &salt).ok().map(|h| h.to_string())
}

/// Relies on `PasswordHash::new` and `Argon2::default().verify_password`:
/// `None` when the hash does not parse, else whether the password matches.
#[verifier::external_body]
fn argon2_verify(plain: &str, hash: &str) -> (r: Option<bool>)
    ensures
        r.is_some() == phc_parses(hash@),
        r matches Some(b) ==> b == argon2_accepts(plain@, hash@),
{
    let parsed = password_hash::PasswordHash::new(hash).ok()?;
    Some(argon2::Argon2::default().verify_password(plain.as_bytes(), &parsed).is_ok())
}

/// Hashes a password with a given salt; `None` when the salt is not valid
/// base64 of an accepted length or hashing fails.
pub fn hash_with_salt(plain: &String, salt: &String) -> (r: Option<String>)
    ensures
        r matches Some(h) ==> h@ == argon2_phc_of(plain@, salt@),
{
    argon2_hash(plain.as_str(), salt.as_str())
}

/// Hashes a password for storage under a fresh random salt, as a PHC
/// string; `None` when no salt could be drawn or hashing fails.
pub fn pass_hash(plain: String) -> (r: Option<String>)
    ensures
        r matches Some(h) ==> exists|salt: Seq<char>| h@ == argon2_phc_of(plain@, salt),
{
    match generate_salt() {
        Some(salt) => hash_with_salt(&plain, &salt),
        None => None,
    }
}

/// Whether a password matches a stored PHC string. A stored text that does
/// not parse matches no password.
pub fn pass_verify(plain: String, hash: String) -> (r: bool)
    ensures
        r == (phc_parses(hash@) && argon2_accepts(plain@, hash@)),
{
    match argon2_verify(plain.as_str(), hash.as_str()) {
        Some(ok) => ok,
        None => false,
    }
}

/// Whether a login with password `plain` is granted to an account whose
/// stored hash is `stored`: only an account with a stored hash that the
/// password matches is signed in.
pub fn login_grants(plain: String, stored: Option<String>) -> (r: bool)
    ensures
        r == (stored matches Some(h) && phc_parses(h@) && argon2_accepts(plain@, h@)),
{
    match stored {
        Some(h) => pass_verify(plain, h),
        None => false,
    }
}

} // verus!
