//! The secret cipher: a master key held in memory, derived from a passphrase
//! or from the machine's identity, and the authenticated encryption of single
//! secrets under it.

use vstd::prelude::*;
use vstd::string::*;
use vstd::utf8::*;
use std::collections::HashMap;
use crate::aead::{aead_open, aead_seal, differ_in_tag, open, random_nonce, seal};
use crate::aead::{KEY_LEN, MAX_PLAINTEXT_LEN, NONCE_LEN, TAG_LEN};
use crate::kdf::{argon2_hash, argon2_output, random_salt, SALT_TEXT_LEN};
use crate::wipe::{wipe_bytes, wipe_key, wipe_text};

verus! {

/// Why the cipher refused.
#[derive(Debug, Clone, Copy, PartialEq, Eq, Structural)]
pub enum CryptoError {
    EncryptionFailed,
    DecryptionFailed,
    KeyDerivationFailed,
    InvalidData,
}

impl CryptoError {
    /// The text shown for this error.
    pub open spec fn message(self) -> Seq<char> {
        match self {
            CryptoError::EncryptionFailed => "Encryption failed"@,
            CryptoError::DecryptionFailed => "Decryption failed"@,
            CryptoError::KeyDerivationFailed => "Key derivation failed"@,
            CryptoError::InvalidData => "Invalid encrypted data"@,
        }
    }

    /// The text shown for this error.
    pub fn to_string(&self) -> (text: String)
        ensures
            text@ == self.message(),
    {
        match self {
            CryptoError::EncryptionFailed => "Encryption failed".to_owned(),
            CryptoError::DecryptionFailed => "Decryption failed".to_owned(),
            CryptoError::KeyDerivationFailed => "Key derivation failed".to_owned(),
            CryptoError::InvalidData => "Invalid encrypted data".to_owned(),
        }
    }
}

/// What an `EncryptedData` holds, as mathematical sequences.
pub struct SecretView {
    pub ciphertext: Seq<u8>,
    pub nonce: Seq<u8>,
    pub salt: Seq<char>,
}

/// One secret as it is persisted: ciphertext with its tag, the nonce it was
/// sealed under, and an auxiliary salt.
#[derive(Debug, PartialEq, Eq)]
pub struct EncryptedData {
    pub ciphertext: Vec<u8>,
    pub nonce: Vec<u8>,
    pub salt: String,
}

impl SecretView {
    /// Whether the nonce has the length that the cipher asks for.
    pub open spec fn well_formed(self) -> bool {
        self.nonce.len() == NONCE_LEN
    }
}

impl View for EncryptedData {
    type V = SecretView;

    open spec fn view(&self) -> SecretView {
        SecretView { ciphertext: self.ciphertext@, nonce: self.nonce@, salt: self.salt@ }
    }
}

impl Clone for EncryptedData {
    fn clone(&self) -> (copy: Self)
        ensures
            copy@ == self@,
    {
        let copy = EncryptedData {
            ciphertext: self.ciphertext.clone(),
            nonce: self.nonce.clone(),
            salt: self.salt.clone(),
        };
        assert(copy.ciphertext@ =~= self.ciphertext@);
        assert(copy.nonce@ =~= self.nonce@);
        copy
    }
}

impl EncryptedData {
    /// Whether the nonce has the length that the cipher asks for.
    pub fn is_well_formed(&self) -> (res: bool)
        ensures
            res == self@.well_formed(),
    {
        self.nonce.len() == NONCE_LEN
    }

    /// Overwrites the three fields with zeros and leaves them empty.
    pub fn zeroize(&mut self)
        ensures
            final(self)@.ciphertext.len() == 0,
            final(self)@.nonce.len() == 0,
            final(self)@.salt.len() == 0,
        opens_invariants none
        no_unwind
    {
        wipe_bytes(&mut self.ciphertext);
        wipe_bytes(&mut self.nonce);
        wipe_text(&mut self.salt);
    }
}

impl Drop for EncryptedData {
    fn drop(&mut self)
        opens_invariants none
        no_unwind
    {
        self.zeroize();
    }
}

/// Sealed secrets by name.
#[derive(Debug, Clone, Default)]
pub struct SecureCredentials {
    pub encrypted_data: HashMap<String, EncryptedData>,
}

/// The plaintext that a key recovers from a persisted secret, or the error
/// that decryption ends in.
pub open spec fn decrypted(key: Option<Seq<u8>>, data: SecretView) -> Result<
    Seq<char>,
    CryptoError,
> {
    match key {
        None => Err(CryptoError::DecryptionFailed),
        Some(k) => if data.nonce.len() != NONCE_LEN {
            Err(CryptoError::InvalidData)
        } else {
            match aead_open(k, data.nonce, data.ciphertext) {
                None => Err(CryptoError::DecryptionFailed),
                Some(bytes) => if valid_utf8(bytes) {
                    Ok(decode_utf8(bytes))
                } else {
                    Err(CryptoError::InvalidData)
                },
            }
        },
    }
}

/// The secret that sealing a plaintext under a key gives for a chosen nonce
/// and salt, or the error that encryption ends in.
pub open spec fn sealed(
    key: Option<Seq<u8>>,
    plaintext: Seq<char>,
    nonce: Seq<u8>,
    salt: Seq<char>,
) -> Result<SecretView, CryptoError> {
    match key {
        None => Err(CryptoError::EncryptionFailed),
        Some(k) => if nonce.len() != NONCE_LEN {
            Err(CryptoError::InvalidData)
        } else if encode_utf8(plaintext).len() > MAX_PLAINTEXT_LEN {
            Err(CryptoError::EncryptionFailed)
        } else {
            Ok(
                SecretView {
                    ciphertext: aead_seal(k, nonce, encode_utf8(plaintext)),
                    nonce,
                    salt,
                },
            )
        },
    }
}

/// Whether a secret is guarded by its tag: under the key, the same secret
/// with any other tag at the end of its ciphertext fails to decrypt with
/// `DecryptionFailed`.
pub open spec fn tag_guarded(key: Option<Seq<u8>>, data: SecretView) -> bool {
    forall|ciphertext: Seq<u8>|
        differ_in_tag(data.ciphertext, ciphertext) ==> #[trigger] decrypted(
            key,
            SecretView { ciphertext, ..data },
        ) == Err::<Seq<char>, CryptoError>(CryptoError::DecryptionFailed)
}

/// Whether a secret is what sealing a plaintext under a key leaves: the
/// ciphertext is the cipher's for the secret's own nonce, a tag longer than
/// the plaintext, the salt has the length of a fresh one, and under the key
/// the secret decrypts to the plaintext, and under no other tag.
pub open spec fn seals(key: Option<Seq<u8>>, plaintext: Seq<char>, data: SecretView) -> bool {
    &&& sealed(key, plaintext, data.nonce, data.salt) == Ok::<SecretView, CryptoError>(data)
    &&& data.salt.len() == SALT_TEXT_LEN
    &&& data.ciphertext.len() == encode_utf8(plaintext).len() + TAG_LEN
    &&& decrypted(key, data) == Ok::<Seq<char>, CryptoError>(plaintext)
    &&& tag_guarded(key, data)
}

/// What was sealed under a key decrypts under it to the plaintext, wherever
/// the cipher opens its own ciphertext to the bytes that went in.
pub proof fn lemma_sealed_decrypts(
    key: Seq<u8>,
    plaintext: Seq<char>,
    nonce: Seq<u8>,
    salt: Seq<char>,
)
    requires
        sealed(Some(key), plaintext, nonce, salt) is Ok,
        aead_open(key, nonce, aead_seal(key, nonce, encode_utf8(plaintext))) == Some(
            encode_utf8(plaintext),
        ),
    ensures
        decrypted(Some(key), sealed(Some(key), plaintext, nonce, salt)->Ok_0) == Ok::<
            Seq<char>,
            CryptoError,
        >(plaintext),
{
    encode_utf8_valid_utf8(plaintext);
    encode_utf8_decode_utf8(plaintext);
}

/// A secret decrypts only to what the cipher authenticates: where decryption
/// gives a text, the nonce has its twelve bytes, and the cipher opens the
/// ciphertext under the key and the nonce to exactly that text's bytes.
pub proof fn lemma_decrypts_only_authenticated(key: Seq<u8>, data: SecretView, text: Seq<char>)
    requires
        decrypted(Some(key), data) == Ok::<Seq<char>, CryptoError>(text),
    ensures
        data.well_formed(),
        aead_open(key, data.nonce, data.ciphertext) == Some(encode_utf8(text)),
{
    let bytes = aead_open(key, data.nonce, data.ciphertext)->Some_0;
    decode_utf8_encode_utf8(bytes);
}

/// The key that a passphrase and a salt derive: their Argon2 hash, or `None`
/// where Argon2 refuses them.
pub open spec fn derived_key(passphrase: Seq<char>, salt: Seq<char>) -> Option<Seq<u8>> {
    argon2_output(encode_utf8(passphrase), salt)
}

/// The salt under which the machine-bound key is derived. It is fixed and
/// public: the machine-bound key guards against a copied disk, not against a
/// reader of this machine's environment.
pub const MACHINE_SALT: &'static str = "c29tZXNhbHR2YWx1ZQ";

/// What the environment says of the machine and the user: each name as
/// Unix-like systems give it and as Windows gives it, absent where the
/// lookup failed.
#[derive(Debug, Default)]
pub struct MachineIdentity {
    /// The machine's name on Unix-like systems.
    pub hostname: Option<String>,
    /// The machine's name on Windows.
    pub computer_name: Option<String>,
    /// The user's name on Unix-like systems.
    pub user: Option<String>,
    /// The user's name on Windows.
    pub user_name: Option<String>,
}

/// The first of two names that is there, or a stand-in where neither is.
pub open spec fn first_known(first: Option<String>, second: Option<String>, stand_in: Seq<char>) -> Seq<
    char,
> {
    match first {
        Some(name) => name@,
        None => match second {
            Some(name) => name@,
            None => stand_in,
        },
    }
}

fn append_first_known(text: &mut String, first: &Option<String>, second: &Option<String>, stand_in: &str)
    ensures
        final(text)@ == old(text)@ + first_known(*first, *second, stand_in@),
{
    match first {
        Some(name) => text.append(name.as_str()),
        None => match second {
            Some(name) => text.append(name.as_str()),
            None => text.append(stand_in),
        },
    }
}

impl MachineIdentity {
    /// The machine's name, or its stand-in.
    pub open spec fn machine_name(&self) -> Seq<char> {
        first_known(self.hostname, self.computer_name, "default-machine"@)
    }

    /// The user's name, or its stand-in.
    pub open spec fn known_user(&self) -> Seq<char> {
        first_known(self.user, self.user_name, "default-user"@)
    }

    /// The passphrase that stands for this machine and user.
    pub open spec fn entropy(&self) -> Seq<char> {
        "yall-cosmic-"@ + self.machine_name() + "-"@ + self.known_user()
    }

    /// Builds the passphrase that stands for this machine and user.
    pub fn passphrase(&self) -> (text: String)
        ensures
            text@ == self.entropy(),
    {
        let mut text = "yall-cosmic-".to_owned();
        append_first_known(&mut text, &self.hostname, &self.computer_name, "default-machine");
        text.append("-");
        append_first_known(&mut text, &self.user, &self.user_name, "default-user");
        text
    }
}

/// The cipher context: it holds the master key, if one is loaded, and never
/// writes it anywhere.
pub struct CryptoManager {
    master_key: Option<[u8; 32]>,
}

impl CryptoManager {
    /// The loaded key, if any.
    pub closed spec fn key(&self) -> Option<Seq<u8>> {
        match self.master_key {
            Some(k) => Some(k@),
            None => None,
        }
    }

    /// A context without a key.
    pub fn new() -> (manager: Self)
        ensures
            manager.key() is None,
    {
        CryptoManager { master_key: None }
    }

    /// Whether a key is loaded.
    pub fn has_key(&self) -> (loaded: bool)
        ensures
            loaded == self.key() is Some,
    {
        self.master_key.is_some()
    }

    /// Overwrites the loaded key with zeros and forgets it.
    pub fn discard_key(&mut self)
        ensures
            final(self).key() is None,
        opens_invariants none
        no_unwind
    {
        match &mut self.master_key {
            Some(key) => wipe_key(key),
            None => {},
        }
        self.master_key = None;
    }

    /// Derives the key from a passphrase and a given salt, and loads it.
    /// Where the derivation fails, the context keeps what it had. The hash
    /// and the working copy of the key are overwritten before they are
    /// released, on every path.
    pub fn init_with_salt(&mut self, password: &str, salt: &str) -> (res: Result<(), CryptoError>)
        ensures
            match derived_key(password@, salt@) {
                Some(k) => res is Ok && final(self).key() == Some(k),
                None => res == Err::<(), CryptoError>(CryptoError::KeyDerivationFailed)
                    && final(self).key() == old(self).key(),
            },
    {
        let mut hash = match argon2_hash(password.as_bytes(), salt) {
            Ok(hash) => hash,
            Err(_) => {
                return Err(CryptoError::KeyDerivationFailed);
            },
        };
        let mut key = [0u8; 32];
        let mut i: usize = 0;
        while i < KEY_LEN
            invariant
                i <= KEY_LEN == hash@.len(),
                forall|j: int| 0 <= j < i ==> key@[j] == hash@[j],
            decreases KEY_LEN - i,
        {
            key[i] = hash[i];
            i += 1;
        }
        assert(key@ =~= hash@);
        wipe_bytes(&mut hash);
        self.discard_key();
        self.master_key = Some(key);
        wipe_key(&mut key);
        Ok(())
    }

    /// Derives the key from a passphrase under a fresh random salt, loads it,
    /// and returns the salt, which is no secret and has to be kept for the
    /// next derivation. It fails only where the derivation refuses the
    /// passphrase under a salt of that length, and then keeps what it had.
    pub fn init_with_password(&mut self, password: &str) -> (res: Result<String, CryptoError>)
        ensures
            match res {
                Ok(salt) => salt@.len() == SALT_TEXT_LEN && derived_key(password@, salt@) is Some
                    && final(self).key() == derived_key(password@, salt@),
                Err(e) => e == CryptoError::KeyDerivationFailed && final(self).key() == old(
                    self,
                ).key(),
            },
            res is Err ==> exists|salt: Seq<char>|
                salt.len() == SALT_TEXT_LEN && #[trigger] derived_key(password@, salt) is None,
    {
        let salt = random_salt();
        match self.init_with_salt(password, salt.as_str()) {
            Ok(()) => Ok(salt),
            Err(e) => {
                assert(derived_key(password@, salt@) is None);
                Err(e)
            },
        }
    }

    /// Derives the key that belongs to a machine and a user, under the fixed
    /// salt, and loads it: the same identity gives the same key in every run.
    pub fn init_with_machine_key(&mut self, identity: &MachineIdentity) -> (res: Result<
        (),
        CryptoError,
    >)
        ensures
            match derived_key(identity.entropy(), MACHINE_SALT@) {
                Some(k) => res is Ok && final(self).key() == Some(k),
                None => res == Err::<(), CryptoError>(CryptoError::KeyDerivationFailed)
                    && final(self).key() == old(self).key(),
            },
    {
        let combined = identity.passphrase();
        self.init_with_salt(combined.as_str(), MACHINE_SALT)
    }
}

impl Drop for CryptoManager {
    fn drop(&mut self)
        opens_invariants none
        no_unwind
    {
        self.discard_key();
    }
}

impl CryptoManager {
    /// Seals a secret under the loaded key with a nonce and a salt that the
    /// caller chose. A nonce must never serve twice under one key.
    pub fn encrypt_with(&self, plaintext: &str, nonce: Vec<u8>, salt: String) -> (res: Result<
        EncryptedData,
        CryptoError,
    >)
        ensures
            match res {
                Ok(data) => sealed(self.key(), plaintext@, nonce@, salt@) == Ok::<
                    SecretView,
                    CryptoError,
                >(data@) && data@.ciphertext.len() == encode_utf8(plaintext@).len() + TAG_LEN
                    && decrypted(self.key(), data@) == Ok::<Seq<char>, CryptoError>(plaintext@)
                    && tag_guarded(self.key(), data@),
                Err(e) => sealed(self.key(), plaintext@, nonce@, salt@) == Err::<
                    SecretView,
                    CryptoError,
                >(e),
            },
    {
        let key = match &self.master_key {
            Some(key) => key,
            None => {
                return Err(CryptoError::EncryptionFailed);
            },
        };
        if nonce.len() != NONCE_LEN {
            return Err(CryptoError::InvalidData);
        }
        match seal(key, &nonce, plaintext.as_bytes()) {
            Ok(ciphertext) => {
                proof {
                    encode_utf8_valid_utf8(plaintext@);
                    encode_utf8_decode_utf8(plaintext@);
                }
                Ok(EncryptedData { ciphertext, nonce, salt })
            },
            Err(_) => Err(CryptoError::EncryptionFailed),
        }
    }

    /// Seals a secret under the loaded key, with a fresh random nonce.
    /// It fails only without a key or on a plaintext too long for the
    /// cipher; what it returns decrypts to the plaintext under the same key,
    /// and under no other tag.
    pub fn encrypt(&self, plaintext: &str) -> (res: Result<EncryptedData, CryptoError>)
        ensures
            res is Ok <==> self.key() is Some && encode_utf8(plaintext@).len()
                <= MAX_PLAINTEXT_LEN,
            match res {
                Ok(data) => seals(self.key(), plaintext@, data@),
                Err(e) => e == CryptoError::EncryptionFailed,
            },
    {
        if !self.has_key() {
            return Err(CryptoError::EncryptionFailed);
        }
        let nonce = random_nonce();
        let salt = random_salt();
        self.encrypt_with(plaintext, nonce, salt)
    }

    /// Recovers a secret under the loaded key: without a key it fails with
    /// `DecryptionFailed`, on a nonce that is not twelve bytes with
    /// `InvalidData`, on data that the key does not authenticate with
    /// `DecryptionFailed`, and on a plaintext that is no UTF-8 with
    /// `InvalidData`. A ciphertext too short to end in a tag authenticates
    /// nothing, and a recovered text is a tag shorter than its ciphertext.
    pub fn decrypt(&self, encrypted: &EncryptedData) -> (res: Result<String, CryptoError>)
        ensures
            match res {
                Ok(text) => decrypted(self.key(), encrypted@) == Ok::<Seq<char>, CryptoError>(
                    text@,
                ),
                Err(e) => decrypted(self.key(), encrypted@) == Err::<Seq<char>, CryptoError>(e),
            },
            self.key() is Some && encrypted@.well_formed() && encrypted@.ciphertext.len() < TAG_LEN
                ==> res == Err::<String, CryptoError>(CryptoError::DecryptionFailed),
            res is Ok ==> encode_utf8(res->Ok_0@).len() + TAG_LEN == encrypted@.ciphertext.len(),
    {
        let key = match &self.master_key {
            Some(key) => key,
            None => {
                return Err(CryptoError::DecryptionFailed);
            },
        };
        if encrypted.nonce.len() != NONCE_LEN {
            return Err(CryptoError::InvalidData);
        }
        let plaintext = match open(key, &encrypted.nonce, &encrypted.ciphertext) {
            Ok(bytes) => bytes,
            Err(_) => {
                return Err(CryptoError::DecryptionFailed);
            },
        };
        proof {
            if valid_utf8(plaintext@) {
                decode_utf8_encode_utf8(plaintext@);
            }
        }
        match String::from_utf8(plaintext) {
            Ok(text) => Ok(text),
            Err(_) => Err(CryptoError::InvalidData),
        }
    }
}

} // verus!
