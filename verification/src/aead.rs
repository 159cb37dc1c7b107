//! AES-256-GCM as the `aes-gcm` crate provides it: the contracts in this file
//! are believed, not proved.

use vstd::prelude::*;
use aes_gcm::aead::Aead;
use aes_gcm::aead::AeadCore;
use aes_gcm::aead::KeyInit;
use aes_gcm::aead::OsRng;
use aes_gcm::Aes256Gcm;
use aes_gcm::Key;
use aes_gcm::Nonce;

verus! {

/// Length of a master key in bytes.
pub const KEY_LEN: usize = 32;

/// Length of a nonce in bytes.
pub const NONCE_LEN: usize = 12;

/// Length of the authentication tag that ends every ciphertext.
pub const TAG_LEN: usize = 16;

/// The longest plaintext, in bytes, that AES-GCM encrypts.
pub const MAX_PLAINTEXT_LEN: u64 = 0x10_0000_0000;

/// The error of `aes_gcm`, which carries no information.
#[verifier::external_type_specification]
#[verifier::external_body]
pub struct ExAeadError(aes_gcm::Error);

/// The ciphertext, tag included, that AES-256-GCM gives for a key, a nonce and
/// a plaintext, without associated data.
pub uninterp spec fn aead_seal(key: Seq<u8>, nonce: Seq<u8>, plaintext: Seq<u8>) -> Seq<u8>;

/// The plaintext that AES-256-GCM recovers from a ciphertext under a key and a
/// nonce, or `None` where the tag does not authenticate it.
pub uninterp spec fn aead_open(key: Seq<u8>, nonce: Seq<u8>, ciphertext: Seq<u8>) -> Option<Seq<u8>>;

/// Whether two ciphertexts are as long as each other and differ in nothing
/// but the tag that ends them.
pub open spec fn differ_in_tag(a: Seq<u8>, b: Seq<u8>) -> bool {
    &&& a.len() == b.len()
    &&& a.len() >= TAG_LEN
    &&& a != b
    &&& a.take(a.len() - TAG_LEN) == b.take(b.len() - TAG_LEN)
}

/// `Aes256Gcm::generate_nonce` on the operating system's random generator.
/// Claimed: the nonce has twelve bytes. Which bytes is left open.
#[verifier::external_body]
pub(crate) fn random_nonce() -> (nonce: Vec<u8>)
    ensures
        nonce@.len() == NONCE_LEN,
{
    Aes256Gcm::generate_nonce(&mut OsRng).to_vec()
}

/// `Aes256Gcm::encrypt` under `key` and `nonce`.
/// Claimed: it fails exactly on a plaintext longer than `MAX_PLAINTEXT_LEN`;
/// otherwise the ciphertext is `aead_seal` of the arguments, it is the
/// plaintext's length plus a tag long, and `aead_open` of it under the same
/// key and nonce is the plaintext. Opening compares the tag that ends a
/// ciphertext with the one computed from what stands before it, so the same
/// ciphertext under any other tag is refused.
#[verifier::external_body]
pub(crate) fn seal(key: &[u8; 32], nonce: &Vec<u8>, plaintext: &[u8]) -> (res: Result<
    Vec<u8>,
    aes_gcm::Error,
>)
    requires
        nonce@.len() == NONCE_LEN,
    ensures
        res is Err <==> plaintext@.len() > MAX_PLAINTEXT_LEN,
        res is Ok ==> res->Ok_0@ == aead_seal(key@, nonce@, plaintext@),
        res is Ok ==> res->Ok_0@.len() == plaintext@.len() + TAG_LEN,
        res is Ok ==> aead_open(key@, nonce@, res->Ok_0@) == Some(plaintext@),
        res is Ok ==> forall|other: Seq<u8>|
            differ_in_tag(res->Ok_0@, other) ==> #[trigger] aead_open(key@, nonce@, other) is None,
{
    let cipher = Aes256Gcm::new(Key::<Aes256Gcm>::from_slice(key));
    cipher.encrypt(Nonce::from_slice(nonce), plaintext)
}

/// `Aes256Gcm::decrypt` under `key` and `nonce`.
/// Claimed: it returns what `aead_open` names, an error standing for `None`;
/// a ciphertext shorter than a tag is refused, and a recovered plaintext is a
/// tag shorter than the ciphertext.
#[verifier::external_body]
pub(crate) fn open(key: &[u8; 32], nonce: &Vec<u8>, ciphertext: &Vec<u8>) -> (res: Result<
    Vec<u8>,
    aes_gcm::Error,
>)
    requires
        nonce@.len() == NONCE_LEN,
    ensures
        res is Ok ==> aead_open(key@, nonce@, ciphertext@) == Some(res->Ok_0@),
        res is Err ==> aead_open(key@, nonce@, ciphertext@) is None,
        ciphertext@.len() < TAG_LEN ==> res is Err,
        res is Ok ==> res->Ok_0@.len() + TAG_LEN == ciphertext@.len(),
{
    let cipher = Aes256Gcm::new(Key::<Aes256Gcm>::from_slice(key));
    cipher.decrypt(Nonce::from_slice(nonce), ciphertext.as_slice())
}

} // verus!
