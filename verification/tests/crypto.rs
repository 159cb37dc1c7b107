use aes_gcm::aead::{Aead, KeyInit};
use aes_gcm::{Aes256Gcm, Key, Nonce};
use argon2::password_hash::SaltString;
use argon2::{Argon2, PasswordHasher};
use yall::crypto::{CryptoError, CryptoManager, EncryptedData, MachineIdentity};

fn manager() -> CryptoManager {
    let mut crypto = CryptoManager::new();
    let identity = MachineIdentity { hostname: Some("box".to_string()), user: Some("ann".to_string()), ..MachineIdentity::default() };
    crypto.init_with_machine_key(&identity).unwrap();
    crypto
}

#[test]
fn test_encrypt_decrypt() {
    let mut crypto = CryptoManager::new();
    crypto.init_with_machine_key(&MachineIdentity::default()).unwrap();

    let plaintext = "secret-token-123";
    let encrypted = crypto.encrypt(plaintext).unwrap();
    let decrypted = crypto.decrypt(&encrypted).unwrap();

    assert_eq!(plaintext, decrypted);
}

#[test]
fn round_trip_of_unicode_and_empty_text() {
    let crypto = manager();
    for text in ["", "p", "pässwörd 🚀", "line\nbreak"] {
        let sealed = crypto.encrypt(text).unwrap();
        assert_eq!(sealed.nonce.len(), 12);
        assert_eq!(sealed.ciphertext.len(), text.len() + 16);
        assert_eq!(sealed.salt.chars().count(), 22);
        assert_eq!(crypto.decrypt(&sealed).unwrap(), text);
    }
}

#[test]
fn ciphertext_is_not_the_plaintext() {
    let crypto = manager();
    let sealed = crypto.encrypt("secret-token-123").unwrap();
    assert_ne!(&sealed.ciphertext[..16], "secret-token-123".as_bytes());
}

#[test]
fn encrypt_without_key_fails() {
    let crypto = CryptoManager::new();
    assert!(!crypto.has_key());
    assert_eq!(crypto.encrypt("x").unwrap_err(), CryptoError::EncryptionFailed);
}

#[test]
fn decrypt_without_key_fails() {
    let sealed = manager().encrypt("x").unwrap();
    let crypto = CryptoManager::new();
    assert_eq!(crypto.decrypt(&sealed).unwrap_err(), CryptoError::DecryptionFailed);
}

#[test]
fn decrypt_rejects_nonce_of_wrong_length() {
    let crypto = manager();
    let sealed = crypto.encrypt("x").unwrap();
    let short = EncryptedData {
        ciphertext: sealed.ciphertext.clone(),
        nonce: sealed.nonce[..11].to_vec(),
        salt: sealed.salt.clone(),
    };
    assert_eq!(crypto.decrypt(&short).unwrap_err(), CryptoError::InvalidData);
    let mut long = sealed.clone();
    long.nonce.push(0);
    assert_eq!(crypto.decrypt(&long).unwrap_err(), CryptoError::InvalidData);
}

#[test]
fn flipping_any_bit_of_the_ciphertext_is_detected() {
    let crypto = manager();
    let sealed = crypto.encrypt("secret-token-123").unwrap();
    for byte in 0..sealed.ciphertext.len() {
        for bit in 0..8 {
            let mut tampered = sealed.clone();
            tampered.ciphertext[byte] ^= 1 << bit;
            assert_eq!(crypto.decrypt(&tampered).unwrap_err(), CryptoError::DecryptionFailed);
        }
    }
}

#[test]
fn flipping_any_bit_of_the_nonce_is_detected() {
    let crypto = manager();
    let sealed = crypto.encrypt("secret-token-123").unwrap();
    for byte in 0..sealed.nonce.len() {
        for bit in 0..8 {
            let mut tampered = sealed.clone();
            tampered.nonce[byte] ^= 1 << bit;
            assert_eq!(crypto.decrypt(&tampered).unwrap_err(), CryptoError::DecryptionFailed);
        }
    }
}

#[test]
fn any_other_tag_is_refused() {
    let crypto = manager();
    for text in ["", "secret-token-123"] {
        let sealed = crypto.encrypt_with(text, vec![3u8; 12], String::new()).unwrap();
        let body = sealed.ciphertext.len() - 16;
        for tag in [[0u8; 16], [0xffu8; 16], [0x5au8; 16]] {
            let mut forged = sealed.clone();
            forged.ciphertext[body..].copy_from_slice(&tag);
            assert_eq!(crypto.decrypt(&forged).unwrap_err(), CryptoError::DecryptionFailed);
        }
        assert_eq!(crypto.decrypt(&sealed).unwrap(), text);
    }
}

#[test]
fn truncated_ciphertext_is_rejected() {
    let crypto = manager();
    let mut sealed = crypto.encrypt("secret").unwrap();
    sealed.ciphertext.truncate(10);
    assert_eq!(crypto.decrypt(&sealed).unwrap_err(), CryptoError::DecryptionFailed);
}

#[test]
fn wrong_key_is_detected() {
    let sealed = manager().encrypt("secret").unwrap();
    let mut other = CryptoManager::new();
    let identity = MachineIdentity { hostname: Some("box".to_string()), user: Some("bob".to_string()), ..MachineIdentity::default() };
    other.init_with_machine_key(&identity).unwrap();
    assert_eq!(other.decrypt(&sealed).unwrap_err(), CryptoError::DecryptionFailed);
}

fn raw_key(passphrase: &str) -> [u8; 32] {
    let salt = SaltString::from_b64("c29tZXNhbHR2YWx1ZQ").unwrap();
    let hash = Argon2::default().hash_password(passphrase.as_bytes(), &salt).unwrap();
    let output = hash.hash.unwrap();
    let mut key = [0u8; 32];
    key.copy_from_slice(&output.as_bytes()[..32]);
    key
}

fn sealed_by_hand(passphrase: &str, nonce: [u8; 12], plaintext: &[u8]) -> EncryptedData {
    let key = raw_key(passphrase);
    let cipher = Aes256Gcm::new(Key::<Aes256Gcm>::from_slice(&key));
    let ciphertext = cipher.encrypt(Nonce::from_slice(&nonce), plaintext).unwrap();
    EncryptedData { ciphertext, nonce: nonce.to_vec(), salt: String::new() }
}

#[test]
fn plaintext_that_is_no_utf8_is_invalid_data() {
    let data = sealed_by_hand("yall-cosmic-box-ann", [9u8; 12], &[0xff, 0xfe, 0x41]);
    assert_eq!(manager().decrypt(&data).unwrap_err(), CryptoError::InvalidData);
}

#[test]
fn decrypt_reads_what_the_cipher_wrote() {
    let data = sealed_by_hand("yall-cosmic-box-ann", [9u8; 12], "tökén".as_bytes());
    assert_eq!(manager().decrypt(&data).unwrap(), "tökén");
}

#[test]
fn encrypt_with_writes_what_the_cipher_writes() {
    let by_hand = sealed_by_hand("yall-cosmic-box-ann", [7u8; 12], b"secret-token-123");
    let sealed = manager().encrypt_with("secret-token-123", vec![7u8; 12], "salt".to_string()).unwrap();
    assert_eq!(sealed.ciphertext, by_hand.ciphertext);
    assert_eq!(sealed.nonce, vec![7u8; 12]);
    assert_eq!(sealed.salt, "salt");
    assert_ne!(&sealed.ciphertext[..16], b"secret-token-123");
}

#[test]
fn machine_key_is_the_argon2_hash() {
    let data = sealed_by_hand("yall-cosmic-default-machine-default-user", [1u8; 12], b"x");
    let mut crypto = CryptoManager::new();
    crypto.init_with_machine_key(&MachineIdentity::default()).unwrap();
    assert_eq!(crypto.decrypt(&data).unwrap(), "x");
}

#[test]
fn nonces_and_ciphertexts_differ_between_calls() {
    let crypto = manager();
    let mut nonces = Vec::new();
    let mut ciphertexts = Vec::new();
    for _ in 0..50 {
        let sealed = crypto.encrypt("same text").unwrap();
        assert!(!nonces.contains(&sealed.nonce));
        assert!(!ciphertexts.contains(&sealed.ciphertext));
        nonces.push(sealed.nonce.clone());
        ciphertexts.push(sealed.ciphertext.clone());
    }
}

#[test]
fn encrypt_with_rejects_nonce_of_wrong_length() {
    let crypto = manager();
    let res = crypto.encrypt_with("x", vec![0u8; 8], "s".to_string());
    assert_eq!(res.unwrap_err(), CryptoError::InvalidData);
    let none = CryptoManager::new().encrypt_with("x", vec![0u8; 12], "s".to_string());
    assert_eq!(none.unwrap_err(), CryptoError::EncryptionFailed);
}

#[test]
fn machine_key_is_deterministic() {
    let a = manager();
    let b = manager();
    let sealed = a.encrypt("again").unwrap();
    assert_eq!(b.decrypt(&sealed).unwrap(), "again");
}

fn named(value: &str) -> Option<String> {
    Some(value.to_string())
}

#[test]
fn machine_passphrase_uses_defaults() {
    assert_eq!(MachineIdentity::default().passphrase(), "yall-cosmic-default-machine-default-user");
    let identity = MachineIdentity { hostname: named("box"), ..MachineIdentity::default() };
    assert_eq!(identity.passphrase(), "yall-cosmic-box-default-user");
    let identity = MachineIdentity { user: named("ann"), ..MachineIdentity::default() };
    assert_eq!(identity.passphrase(), "yall-cosmic-default-machine-ann");
}

#[test]
fn machine_passphrase_prefers_the_unix_names() {
    let identity = MachineIdentity {
        hostname: named("box"),
        computer_name: named("PC"),
        user: named("ann"),
        user_name: named("Ann"),
    };
    assert_eq!(identity.passphrase(), "yall-cosmic-box-ann");
    let identity = MachineIdentity { computer_name: named("PC"), user_name: named("Ann"), ..MachineIdentity::default() };
    assert_eq!(identity.passphrase(), "yall-cosmic-PC-Ann");
    let identity = MachineIdentity { hostname: named(""), computer_name: named("PC"), ..MachineIdentity::default() };
    assert_eq!(identity.passphrase(), "yall-cosmic--default-user");
}

#[test]
fn passphrase_key_returns_its_salt() {
    let mut a = CryptoManager::new();
    let salt = a.init_with_password("correct horse").unwrap();
    assert_eq!(salt.len(), 22);
    let sealed = a.encrypt("battery staple").unwrap();

    let mut b = CryptoManager::new();
    b.init_with_salt("correct horse", &salt).unwrap();
    assert_eq!(b.decrypt(&sealed).unwrap(), "battery staple");

    let mut c = CryptoManager::new();
    c.init_with_salt("wrong horse", &salt).unwrap();
    assert_eq!(c.decrypt(&sealed).unwrap_err(), CryptoError::DecryptionFailed);
}

#[test]
fn a_stored_secret_carries_a_fresh_salt() {
    let crypto = manager();
    let a = crypto.encrypt("x").unwrap();
    let b = crypto.encrypt("x").unwrap();
    assert_eq!(a.salt.len(), 22);
    assert_eq!(b.salt.len(), 22);
    assert_ne!(a.salt, b.salt);
    assert!(SaltString::from_b64(&a.salt).is_ok());
}

#[test]
fn key_derivation_fails_on_a_bad_salt() {
    let mut crypto = CryptoManager::new();
    assert_eq!(crypto.init_with_salt("pw", "!!").unwrap_err(), CryptoError::KeyDerivationFailed);
    assert!(!crypto.has_key());
    let mut loaded = manager();
    assert_eq!(loaded.init_with_salt("pw", "!!").unwrap_err(), CryptoError::KeyDerivationFailed);
    assert!(loaded.has_key());
}

#[test]
fn discard_key_forgets_the_key() {
    let mut crypto = manager();
    let sealed = crypto.encrypt("x").unwrap();
    crypto.discard_key();
    assert!(!crypto.has_key());
    assert_eq!(crypto.decrypt(&sealed).unwrap_err(), CryptoError::DecryptionFailed);
}

#[test]
fn a_secret_is_well_formed_by_its_nonce() {
    let mut sealed = manager().encrypt("x").unwrap();
    assert!(sealed.is_well_formed());
    sealed.nonce.pop();
    assert!(!sealed.is_well_formed());
}

#[test]
fn zeroize_empties_a_secret() {
    let mut sealed = manager().encrypt("x").unwrap();
    sealed.zeroize();
    assert!(sealed.ciphertext.is_empty());
    assert!(sealed.nonce.is_empty());
    assert!(sealed.salt.is_empty());
}

#[test]
fn crypto_error_texts() {
    assert_eq!(CryptoError::EncryptionFailed.to_string(), "Encryption failed");
    assert_eq!(CryptoError::DecryptionFailed.to_string(), "Decryption failed");
    assert_eq!(CryptoError::KeyDerivationFailed.to_string(), "Key derivation failed");
    assert_eq!(CryptoError::InvalidData.to_string(), "Invalid encrypted data");
}
