//! Argon2 as the `argon2` crate provides it: the contracts in this file are
//! believed, not proved.

use vstd::prelude::*;
use aes_gcm::aead::OsRng;
use argon2::password_hash::SaltString;
use argon2::Argon2;
use argon2::PasswordHasher;

verus! {

/// Length of a freshly generated salt in characters.
pub const SALT_TEXT_LEN: usize = 22;

/// Length of an Argon2 hash under the crate's default parameters, in bytes.
pub const HASH_LEN: usize = 32;

/// The error of `argon2`'s password hashing.
#[verifier::external_type_specification]
#[verifier::external_body]
pub struct ExPasswordHashError(argon2::password_hash::Error);

/// The hash that Argon2, with the crate's default parameters, gives for a
/// password and a salt written in base 64, or `None` where it refuses them.
pub uninterp spec fn argon2_output(password: Seq<u8>, salt: Seq<char>) -> Option<Seq<u8>>;

/// `SaltString::generate` on the operating system's random generator, read
/// back as text.
/// Claimed: the salt is sixteen random bytes in base 64 without padding, so
/// twenty-two characters. Which characters is left open.
#[verifier::external_body]
pub(crate) fn random_salt() -> (salt: String)
    ensures
        salt@.len() == SALT_TEXT_LEN,
{
    SaltString::generate(&mut OsRng).as_str().to_string()
}

/// `Argon2::default().hash_password` with the salt parsed by
/// `SaltString::from_b64`.
/// Claimed: the hash's bytes are what `argon2_output` names for the password
/// and the salt's text, an error of either call standing for `None`; and a
/// hash has the thirty-two bytes of the default parameters.
#[verifier::external_body]
pub(crate) fn argon2_hash(password: &[u8], salt: &str) -> (res: Result<
    Vec<u8>,
    argon2::password_hash::Error,
>)
    ensures
        res is Ok ==> argon2_output(password@, salt@) == Some(res->Ok_0@),
        res is Ok ==> res->Ok_0@.len() == HASH_LEN,
        res is Err ==> argon2_output(password@, salt@) is None,
{
    let salt = SaltString::from_b64(salt)?;
    let hash = Argon2::default().hash_password(password, &salt)?;
    hash.hash.map(|out| out.as_bytes().to_vec()).ok_or(argon2::password_hash::Error::Crypto)
}

} // verus!
