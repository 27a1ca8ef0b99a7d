use vstd::prelude::*;
use vstd::string::StringSliceAdditionalSpecFns;
use vstd::slice::slice_to_vec;
use ring::aead;
use ring::rand::SecureRandom;
use crate::error::AppError;

verus! {

/// The character of a six-bit value in the standard base64 alphabet:
/// `A`-`Z`, `a`-`z`, `0`-`9`, `+` and `/`.
pub open spec fn base64_char(v: int) -> char {
    if v < 26 {
        (65 + v) as char
    } else if v < 52 {
        (71 + v) as char
    } else if v < 62 {
        (v - 4) as char
    } else if v == 62 {
        '+'
    } else {
        '/'
    }
}

/// The standard padded base64 text of some bytes: each group of three bytes
/// becomes four characters of six bits each, and a last group of one or two
/// bytes is padded with `=` to four characters.
pub open spec fn base64_encoding(bytes: Seq<u8>) -> Seq<char>
    decreases bytes.len(),
{
    if bytes.len() == 0 {
        seq![]
    } else if bytes.len() == 1 {
        seq![
            base64_char(bytes[0] as int / 4),
            base64_char((bytes[0] as int % 4) * 16),
            '=',
            '=',
        ]
    } else if bytes.len() == 2 {
        seq![
            base64_char(bytes[0] as int / 4),
            base64_char((bytes[0] as int % 4) * 16 + bytes[1] as int / 16),
            base64_char((bytes[1] as int % 16) * 4),
            '=',
        ]
    } else {
        seq![
            base64_char(bytes[0] as int / 4),
            base64_char((bytes[0] as int % 4) * 16 + bytes[1] as int / 16),
            base64_char((bytes[1] as int % 16) * 4 + bytes[2] as int / 64),
            base64_char(bytes[2] as int % 64),
        ] + base64_encoding(bytes.skip(3))
    }
}

/// What `base64::decode` (standard alphabet, padded) makes of a text:
/// `Some(bytes)` when it returns `Ok(bytes)`, `None` when it returns an error.
pub uninterp spec fn base64_decoding(text: Seq<char>) -> Option<Seq<u8>>;

/// What AES-256-GCM sealing with an empty associated data returns for a key,
/// a nonce and an input: the ciphertext with the tag appended.
pub uninterp spec fn aes256gcm_sealed(key: Seq<u8>, nonce: Seq<u8>, input: Seq<u8>) -> Seq<u8>;

/// What AES-256-GCM opening with an empty associated data returns for a key,
/// a nonce and a sealed input: `Some(plaintext)` when the tag checks, else `None`.
pub uninterp spec fn aes256gcm_opened(key: Seq<u8>, nonce: Seq<u8>, sealed: Seq<u8>) -> Option<Seq<u8>>;

/// The length in bytes of an AES-256 key.
pub open spec fn key_len() -> nat {
    32
}

/// The length in bytes of an AES-GCM nonce.
pub open spec fn nonce_len() -> nat {
    12
}

/// The length in bytes of an AES-GCM tag.
pub open spec fn tag_len() -> nat {
    16
}

/// The longest input that AES-GCM seals under one nonce (ring's limit on a
/// 64-bit machine; on a 32-bit machine the limit is the whole address space).
pub open spec fn gcm_max_input() -> nat {
    68719476704
}

/// The length of the standard padded base64 text of `n` bytes.
pub open spec fn base64_len(n: nat) -> nat {
    4 * ((n + 2) / 3)
}

/// The base64 text of `n` bytes has [`base64_len`]`(n)` characters.
pub proof fn lemma_base64_len(bytes: Seq<u8>)
    ensures
        base64_encoding(bytes).len() == base64_len(bytes.len()),
    decreases bytes.len(),
{
    if bytes.len() >= 3 {
        lemma_base64_len(bytes.skip(3));
    }
}

/// `base64::encode(bytes)`: the standard padded base64 text of the bytes, as
/// [`base64_encoding`] spells it. The crate's source panics when the text's
/// length overflows, which `requires` rules out.
#[verifier::external_body]
fn base64_encode(bytes: &[u8]) -> (r: String)
    requires
        base64_len(bytes@.len()) <= usize::MAX,
    ensures
        r@ == base64_encoding(bytes@),
{
    base64::encode(bytes)
}

/// `base64::decode(text)`, named by [`base64_decoding`]; its error is mapped
/// to `None`. The crate shows that decoding gives back what encoding took.
/// It panics when the text's byte length plus 7 overflows, which `requires`
/// rules out.
#[verifier::external_body]
fn base64_decode(text: &str) -> (r: Option<Vec<u8>>)
    requires
        text.spec_bytes().len() + 7 <= usize::MAX,
    ensures
        match r {
            Some(v) => base64_decoding(text@) == Some(v@),
            None => base64_decoding(text@) is None,
        },
        r matches Some(v) ==> forall|b: Seq<u8>| #[trigger] base64_encoding(b) == text@ ==> v@ == b,
        (exists|b: Seq<u8>| #[trigger] base64_encoding(b) == text@) ==> r is Some,
{
    match base64::decode(text) {
        Ok(v) => Some(v),
        Err(_) => None,
    }
}

/// Whether `ring::aead::UnboundKey::new(&AES_256_GCM, key)` accepts the key;
/// ring documents that it fails exactly when the key is not 32 bytes long.
#[verifier::external_body]
fn aes256gcm_accepts_key(key: &[u8]) -> (r: bool)
    ensures
        r == (key@.len() == key_len()),
{
    aead::UnboundKey::new(&aead::AES_256_GCM, key).is_ok()
}

/// `ring::rand::SystemRandom::new().fill` on a 12-byte buffer: fresh random
/// bytes, or `None` when the system's randomness fails. Nothing is stated of
/// the bytes but their number.
#[verifier::external_body]
fn system_random_nonce() -> (r: Option<Vec<u8>>)
    ensures
        r matches Some(n) ==> n@.len() == nonce_len(),
{
    let mut nonce = [0u8; 12];
    match ring::rand::SystemRandom::new().fill(&mut nonce) {
        Ok(()) => Some(nonce.to_vec()),
        Err(_) => None,
    }
}

/// `ring::aead::LessSafeKey::seal_in_place_append_tag` with AES-256-GCM, the
/// given key and nonce and an empty associated data, named by
/// [`aes256gcm_sealed`]. ring appends a 16-byte tag, and refuses only inputs
/// longer than its limit. The key and the nonce have the lengths ring takes,
/// so building them cannot fail.
#[verifier::external_body]
fn aes256gcm_seal(key: &[u8], nonce: &[u8], input: Vec<u8>) -> (r: Option<Vec<u8>>)
    requires
        key@.len() == key_len(),
        nonce@.len() == nonce_len(),
    ensures
        r matches Some(c) ==> c@ == aes256gcm_sealed(key@, nonce@, input@),
        r matches Some(c) ==> c@.len() == input@.len() + tag_len(),
        input@.len() <= gcm_max_input() ==> r is Some,
{
    let key = aead::LessSafeKey::new(aead::UnboundKey::new(&aead::AES_256_GCM, key).unwrap());
    let nonce = aead::Nonce::try_assume_unique_for_key(nonce).unwrap();
    let mut in_out = input;
    match key.seal_in_place_append_tag(nonce, aead::Aad::empty(), &mut in_out) {
        Ok(()) => Some(in_out),
        Err(_) => None,
    }
}

/// `ring::aead::LessSafeKey::open_in_place` with AES-256-GCM, the given key
/// and nonce and an empty associated data, named by [`aes256gcm_opened`].
/// As for every AEAD, opening what was sealed under the same key and nonce
/// gives back the sealed input (for inputs within ring's limit, the only ones
/// it seals).
#[verifier::external_body]
fn aes256gcm_open(key: &[u8], nonce: &[u8], sealed: &[u8]) -> (r: Option<Vec<u8>>)
    requires
        key@.len() == key_len(),
        nonce@.len() == nonce_len(),
    ensures
        match r {
            Some(p) => aes256gcm_opened(key@, nonce@, sealed@) == Some(p@),
            None => aes256gcm_opened(key@, nonce@, sealed@) is None,
        },
        sealed@.len() < tag_len() ==> r is None,
        r matches Some(q) ==> forall|p: Seq<u8>|
            p.len() <= gcm_max_input() && #[trigger] aes256gcm_sealed(key@, nonce@, p) == sealed@
            ==> q@ == p,
        (exists|p: Seq<u8>|
            p.len() <= gcm_max_input() && #[trigger] aes256gcm_sealed(key@, nonce@, p) == sealed@)
            ==> r is Some,
{
    let key = aead::LessSafeKey::new(aead::UnboundKey::new(&aead::AES_256_GCM, key).unwrap());
    let nonce = aead::Nonce::try_assume_unique_for_key(nonce).unwrap();
    let mut in_out = sealed.to_vec();
    match key.open_in_place(nonce, aead::Aad::empty(), &mut in_out) {
        Ok(plain) => Some(plain.to_vec()),
        Err(_) => None,
    }
}

/// Whether an error is an encryption error with the given message.
pub open spec fn is_encryption_error(e: AppError, message: Seq<char>) -> bool {
    e matches AppError::EncryptionError(m) && m@ == message
}

/// The text that encrypting `plaintext` under `key` with `nonce` produces:
/// base64 of the nonce followed by the sealed plaintext.
pub open spec fn encrypted_text(key: Seq<u8>, nonce: Seq<u8>, plaintext: Seq<u8>) -> Seq<char> {
    base64_encoding(nonce + aes256gcm_sealed(key, nonce, plaintext))
}

/// What decrypting `text` under `key` gives: the plaintext, or the message of
/// the encryption error.
pub open spec fn decryption(key: Seq<u8>, text: Seq<char>) -> Result<Seq<u8>, Seq<char>> {
    match base64_decoding(text) {
        None => Err("Base64 decode failed"@),
        Some(data) => if data.len() < nonce_len() {
            Err("Ciphertext too short"@)
        } else if key.len() != key_len() {
            Err("Invalid key"@)
        } else if data.len() < nonce_len() + tag_len() {
            Err("Decryption failed"@)
        } else {
            match aes256gcm_opened(key, data.take(12), data.skip(12)) {
                None => Err("Decryption failed"@),
                Some(p) => Ok(p),
            }
        },
    }
}

/// Encrypts and decrypts with a symmetric AES-256-GCM key.
pub struct Encryptor {
    key: Vec<u8>,
}

impl Encryptor {
    /// The key's bytes.
    pub closed spec fn key_bytes(&self) -> Seq<u8> {
        self.key@
    }

    /// Builds an encryptor from the base64 key found in the environment
    /// (`None` when the variable is not set).
    pub fn new_from_env(key_var: Option<&str>) -> (res: Result<Encryptor, AppError>)
        requires
            key_var matches Some(k) ==> k.spec_bytes().len() + 7 <= usize::MAX,
        ensures
            key_var is None ==> (res matches Err(e) && is_encryption_error(
                e,
                "Missing encryption key in env"@,
            )),
            key_var matches Some(k) ==> match base64_decoding(k@) {
                None => res matches Err(e) && is_encryption_error(e, "Invalid base64 key"@),
                Some(bytes) => res matches Ok(enc) && enc.key_bytes() == bytes,
            },
    {
        match key_var {
            None => Err(AppError::EncryptionError(String::from_str("Missing encryption key in env"))),
            Some(k) => match base64_decode(k) {
                None => Err(AppError::EncryptionError(String::from_str("Invalid base64 key"))),
                Some(key) => Ok(Encryptor { key }),
            },
        }
    }

    /// Encrypts plaintext bytes under a given 12-byte nonce and returns the
    /// base64 text of the nonce followed by the sealed plaintext (its
    /// ciphertext, then the 16-byte tag).
    pub fn encrypt_with_nonce(&self, plaintext: &[u8], nonce: &[u8]) -> (res: Result<String, AppError>)
        requires
            self.key_bytes().len() == key_len(),
            nonce@.len() == nonce_len(),
            base64_len(plaintext@.len() + 28) <= usize::MAX,
        ensures
            match res {
                Ok(s) => s@ == encrypted_text(self.key_bytes(), nonce@, plaintext@),
                Err(e) => is_encryption_error(e, "Encryption failed"@),
            },
            res matches Ok(s) ==> s@.len() == base64_len(nonce_len() + plaintext@.len() + tag_len()),
            res is Ok ==> aes256gcm_sealed(self.key_bytes(), nonce@, plaintext@).len()
                == plaintext@.len() + tag_len(),
            plaintext@.len() <= gcm_max_input() ==> res is Ok,
    {
        let in_out: Vec<u8> = slice_to_vec(plaintext);
        match aes256gcm_seal(self.key.as_slice(), nonce, in_out) {
            None => Err(AppError::EncryptionError(String::from_str("Encryption failed"))),
            Some(sealed) => {
                let mut result: Vec<u8> = slice_to_vec(nonce);
                let mut sealed = sealed;
                result.append(&mut sealed);
                proof {
                    lemma_base64_len(result@);
                }
                Ok(base64_encode(result.as_slice()))
            },
        }
    }

    /// Encrypts plaintext bytes under a fresh random nonce and returns the
    /// base64 text of the nonce followed by the sealed plaintext.
    pub fn encrypt(&self, plaintext: &[u8]) -> (res: Result<String, AppError>)
        requires
            base64_len(plaintext@.len() + 28) <= usize::MAX,
        ensures
            self.key_bytes().len() != key_len() ==> (res matches Err(e) && is_encryption_error(
                e,
                "Invalid key"@,
            )),
            res matches Ok(s) ==> s@.len() == base64_len(nonce_len() + plaintext@.len() + tag_len()),
            res matches Ok(s) ==> exists|n: Seq<u8>|
                n.len() == nonce_len() && aes256gcm_sealed(self.key_bytes(), n, plaintext@).len()
                    == plaintext@.len() + tag_len() && s@ == #[trigger] encrypted_text(
                    self.key_bytes(),
                    n,
                    plaintext@,
                ),
            res matches Err(e) ==> {
                ||| is_encryption_error(e, "Invalid key"@) && self.key_bytes().len() != key_len()
                ||| is_encryption_error(e, "Random nonce failed"@)
                ||| is_encryption_error(e, "Encryption failed"@) && plaintext@.len()
                    > gcm_max_input()
            },
    {
        if !aes256gcm_accepts_key(self.key.as_slice()) {
            return Err(AppError::EncryptionError(String::from_str("Invalid key")));
        }
        match system_random_nonce() {
            None => Err(AppError::EncryptionError(String::from_str("Random nonce failed"))),
            Some(nonce) => self.encrypt_with_nonce(plaintext, nonce.as_slice()),
        }
    }

    /// Decrypts base64 ciphertext (a nonce followed by sealed bytes) and
    /// returns the plaintext bytes. What [`Encryptor::encrypt`] made under
    /// the same key gives back its plaintext.
    pub fn decrypt(&self, ciphertext: &str) -> (res: Result<Vec<u8>, AppError>)
        requires
            ciphertext.spec_bytes().len() + 7 <= usize::MAX,
        ensures
            match decryption(self.key_bytes(), ciphertext@) {
                Ok(p) => res matches Ok(v) && v@ == p,
                Err(m) => res matches Err(e) && is_encryption_error(e, m),
            },
            forall|n: Seq<u8>, p: Seq<u8>|
                #![trigger encrypted_text(self.key_bytes(), n, p)]
                n.len() == nonce_len() && self.key_bytes().len() == key_len()
                    && p.len() <= gcm_max_input()
                    && ciphertext@ == encrypted_text(self.key_bytes(), n, p)
                    ==> (res matches Ok(v) && v@ == p),
    {
        let data = match base64_decode(ciphertext) {
            None => {
                proof {
                    assert forall|n: Seq<u8>, p: Seq<u8>|
                        ciphertext@ == #[trigger] encrypted_text(self.key_bytes(), n, p) implies false by {
                        let b = n + aes256gcm_sealed(self.key_bytes(), n, p);
                        assert(base64_encoding(b) == ciphertext@);
                    }
                }
                return Err(AppError::EncryptionError(String::from_str("Base64 decode failed")));
            },
            Some(d) => d,
        };
        if data.len() < 12 {
            proof {
                assert forall|n: Seq<u8>, p: Seq<u8>|
                    n.len() == nonce_len() && ciphertext@ == #[trigger] encrypted_text(
                        self.key_bytes(),
                        n,
                        p,
                    ) implies false by {
                    let b = n + aes256gcm_sealed(self.key_bytes(), n, p);
                    assert(base64_encoding(b) == ciphertext@);
                    assert(data@ == b);
                }
            }
            return Err(AppError::EncryptionError(String::from_str("Ciphertext too short")));
        }
        let (nonce, in_out) = data.as_slice().split_at(12);
        assert(nonce@ =~= data@.take(12));
        assert(in_out@ =~= data@.skip(12));
        proof {
            assert forall|n: Seq<u8>, p: Seq<u8>|
                n.len() == nonce_len() && ciphertext@ == #[trigger] encrypted_text(
                    self.key_bytes(),
                    n,
                    p,
                ) implies nonce@ == n && in_out@ == aes256gcm_sealed(
                self.key_bytes(),
                n,
                p,
            ) by {
                let sealed = aes256gcm_sealed(self.key_bytes(), n, p);
                assert(base64_encoding(n + sealed) == ciphertext@);
                assert(data@ == n + sealed);
                assert(data@.take(12) =~= n);
                assert(data@.skip(12) =~= sealed);
            }
        }
        if !aes256gcm_accepts_key(self.key.as_slice()) {
            return Err(AppError::EncryptionError(String::from_str("Invalid key")));
        }
        match aes256gcm_open(self.key.as_slice(), nonce, in_out) {
            None => Err(AppError::EncryptionError(String::from_str("Decryption failed"))),
            Some(plain) => Ok(plain),
        }
    }
}

} // verus!
