use trading_engine::crypto::Encryptor;
use trading_engine::error::AppError;
use trading_engine::password::{hash_password, verify_password};

/// Base64 of 32 zero bytes.
const ZERO_KEY: &str = "AAAAAAAAAAAAAAAAAAAAAAAAAAAAAAAAAAAAAAAAAAA=";

fn encryption_message(e: AppError) -> String {
    match e {
        AppError::EncryptionError(m) => m,
        other => panic!("not an encryption error: {:?}", other),
    }
}

#[test]
fn hashed_password_verifies() {
    let h = hash_password("hunter2").unwrap();
    assert_eq!(h.len(), 60);
    assert!(h.starts_with("$2b$12$"));
    assert_eq!(verify_password("hunter2", &h).unwrap(), true);
    assert_eq!(verify_password("hunter3", &h).unwrap(), false);
}

#[test]
fn verify_known_hash() {
    let hash = "$2a$04$UuTkLRZZ6QofpDOlMz32MuuxEHA43WOemOYHPz6.SjsVsyO1tDU96";
    assert!(verify_password("password", hash).unwrap());
    assert!(!verify_password("Password", hash).unwrap());
}

#[test]
fn verify_rejects_malformed_hash() {
    assert!(verify_password("password", "not a hash").is_err());
    assert!(verify_password("password", "$2a$04$tooshort").is_err());
}

#[test]
fn missing_key_is_reported() {
    let e = Encryptor::new_from_env(None).err().unwrap();
    assert_eq!(encryption_message(e), "Missing encryption key in env");
}

#[test]
fn invalid_base64_key_is_reported() {
    let e = Encryptor::new_from_env(Some("not base64!")).err().unwrap();
    assert_eq!(encryption_message(e), "Invalid base64 key");
}

#[test]
fn short_key_cannot_encrypt_or_decrypt() {
    // "aGVsbG8=" is the five bytes of "hello", not an AES-256 key.
    let enc = Encryptor::new_from_env(Some("aGVsbG8=")).ok().unwrap();
    let e = enc.encrypt(b"secret").err().unwrap();
    assert_eq!(encryption_message(e), "Invalid key");
    let e = enc.decrypt(&base64::encode([7u8; 40])).err().unwrap();
    assert_eq!(encryption_message(e), "Invalid key");
}

#[test]
fn encrypt_then_decrypt_gives_back_plaintext() {
    let enc = Encryptor::new_from_env(Some(ZERO_KEY)).ok().unwrap();
    let text = enc.encrypt(b"api-key-123").ok().unwrap();
    assert_eq!(text.len(), 4 * ((12 + 11 + 16 + 2) / 3));
    let plain = enc.decrypt(&text).ok().unwrap();
    assert_eq!(plain, b"api-key-123".to_vec());
}

#[test]
fn empty_plaintext_round_trips() {
    let enc = Encryptor::new_from_env(Some(ZERO_KEY)).ok().unwrap();
    let text = enc.encrypt(b"").ok().unwrap();
    assert_eq!(base64::decode(&text).unwrap().len(), 12 + 16);
    assert_eq!(enc.decrypt(&text).ok().unwrap(), Vec::<u8>::new());
}

#[test]
fn fixed_nonce_encryption_is_deterministic_and_sealed() {
    let enc = Encryptor::new_from_env(Some(ZERO_KEY)).ok().unwrap();
    let nonce = [1u8; 12];
    let a = enc.encrypt_with_nonce(b"hello", &nonce).ok().unwrap();
    let b = enc.encrypt_with_nonce(b"hello", &nonce).ok().unwrap();
    assert_eq!(a, b);
    let raw = base64::decode(&a).unwrap();
    // nonce, then the ciphertext of the plaintext, then the 16-byte tag
    assert_eq!(raw.len(), 12 + 5 + 16);
    assert_eq!(&raw[..12], &nonce[..]);
    assert_ne!(&raw[12..17], b"hello");
    assert_eq!(a.len(), 4 * ((raw.len() + 2) / 3));
    let plain = enc.decrypt(&a).ok().unwrap();
    assert_eq!(plain, b"hello".to_vec());
}

#[test]
fn random_nonces_differ() {
    let enc = Encryptor::new_from_env(Some(ZERO_KEY)).ok().unwrap();
    let a = enc.encrypt(b"same").ok().unwrap();
    let b = enc.encrypt(b"same").ok().unwrap();
    assert_ne!(a, b);
}

#[test]
fn decrypt_errors() {
    let enc = Encryptor::new_from_env(Some(ZERO_KEY)).ok().unwrap();
    let e = enc.decrypt("@@@@").err().unwrap();
    assert_eq!(encryption_message(e), "Base64 decode failed");
    let e = enc.decrypt(&base64::encode([1u8; 11])).err().unwrap();
    assert_eq!(encryption_message(e), "Ciphertext too short");
    let e = enc.decrypt(&base64::encode([1u8; 20])).err().unwrap();
    assert_eq!(encryption_message(e), "Decryption failed");
    let e = enc.decrypt(&base64::encode([1u8; 40])).err().unwrap();
    assert_eq!(encryption_message(e), "Decryption failed");
}

#[test]
fn tampered_ciphertext_is_refused() {
    let enc = Encryptor::new_from_env(Some(ZERO_KEY)).ok().unwrap();
    let text = enc.encrypt_with_nonce(b"hello", &[2u8; 12]).ok().unwrap();
    let mut raw = base64::decode(&text).unwrap();
    raw[14] ^= 1;
    let e = enc.decrypt(&base64::encode(&raw)).err().unwrap();
    assert_eq!(encryption_message(e), "Decryption failed");
}
