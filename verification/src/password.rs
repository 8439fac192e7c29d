use vstd::prelude::*;
use password_hash::{PasswordHash, PasswordHasher, PasswordVerifier, SaltString};
use pbkdf2::{Params, Pbkdf2};
use rand_core::{OsRng, RngCore};

verus! {

/// Number of PBKDF2 rounds used for new password hashes.
pub const PBKDF2_ROUNDS: u32 = 5000;

/// The PHC string that `pbkdf2` (HMAC-SHA-256, 32-byte output) produces for
/// a password, a salt and a number of rounds.
pub uninterp spec fn pbkdf2_phc_string(password: Seq<char>, salt: Seq<u8>, rounds: u32) -> Seq<char>;

/// Whether `PasswordHash::new` accepts a string as a PHC string.
pub uninterp spec fn phc_well_formed(hash: Seq<char>) -> bool;

/// Whether `Pbkdf2.verify_password` accepts a password for a well-formed
/// PHC string.
pub uninterp spec fn phc_verifies(hash: Seq<char>, password: Seq<char>) -> bool;

/// Sixteen bytes from the operating system's random source
/// (`OsRng.fill_bytes`), the recommended salt length. Nothing is claimed
/// of the bytes: they are random.
#[verifier::external_body]
fn random_salt() -> [u8; 16] {
    let mut salt_bytes = [0u8; 16];
    OsRng.fill_bytes(&mut salt_bytes);
    salt_bytes
}

/// The PHC string of a PBKDF2-SHA-256 hash of `password` with `salt`
/// (`SaltString::encode_b64`, then `Pbkdf2.hash_password_customized` with
/// 32 output bytes, then `to_string`).
///
/// Claimed of the crates: the result is a function of the three
/// arguments; it parses again with `PasswordHash::new`; and verifying the
/// same password against it succeeds, since verification recomputes the
/// hash from the salt and parameters that the string holds.
#[verifier::external_body]
fn pbkdf2_hash(password: &str, salt: &[u8; 16], rounds: u32) -> (r: String)
    requires
        rounds >= 1,
    ensures
        r@ == pbkdf2_phc_string(password@, salt@, rounds),
        phc_well_formed(r@),
        phc_verifies(r@, password@),
{
    let salt_b64 = SaltString::encode_b64(salt).unwrap();
    let params = Params { rounds, output_length: 32 };
    Pbkdf2.hash_password_customized(password.as_bytes(), None, None, params, &salt_b64)
        .unwrap()
        .to_string()
}

/// Whether `PasswordHash::new` parses `hash`.
#[verifier::external_body]
fn phc_parses(hash: &str) -> (r: bool)
    ensures
        r == phc_well_formed(hash@),
{
    PasswordHash::new(hash).is_ok()
}

/// Whether `password` matches the PHC string `hash`
/// (`Pbkdf2.verify_password`); the string must parse.
#[verifier::external_body]
fn phc_verify(hash: &str, password: &str) -> (r: bool)
    requires
        phc_well_formed(hash@),
    ensures
        r == phc_verifies(hash@, password@),
{
    let parsed_hash = PasswordHash::new(hash).unwrap();
    Pbkdf2.verify_password(password.as_bytes(), &parsed_hash).is_ok()
}

/// Hashes a password with PBKDF2 under a fresh random salt, as a PHC
/// string holding the salt, the hash and the parameters.
///
/// The result is well formed and accepts the same password.
pub fn hash_password_pbkdf2(password: &str) -> (r: String)
    ensures
        exists|salt: Seq<u8>| salt.len() == 16 && r@ == pbkdf2_phc_string(password@, salt, PBKDF2_ROUNDS),
        phc_well_formed(r@),
        phc_verifies(r@, password@),
{
    let salt = random_salt();
    let r = pbkdf2_hash(password, &salt, PBKDF2_ROUNDS);
    assert(salt@.len() == 16);
    r
}

/// Whether `password` can produce the hash given as a PHC string; the
/// string must be well formed.
pub fn validate_password_pbkdf2(hash: &str, password: &str) -> (r: bool)
    requires
        phc_well_formed(hash@),
    ensures
        r == phc_verifies(hash@, password@),
{
    phc_verify(hash, password)
}

/// Whether a stored hash is a well-formed PHC string.
pub fn is_phc_string(hash: &str) -> (r: bool)
    ensures
        r == phc_well_formed(hash@),
{
    phc_parses(hash)
}

/// Checks `password` against a stored PHC string: `None` when the string
/// is malformed, else whether the password matches.
pub fn check_password(hash: &str, password: &str) -> (r: Option<bool>)
    ensures
        !phc_well_formed(hash@) ==> r is None,
        phc_well_formed(hash@) ==> r == Some(phc_verifies(hash@, password@)),
{
    if phc_parses(hash) {
        Some(validate_password_pbkdf2(hash, password))
    } else {
        None
    }
}

} // verus!
