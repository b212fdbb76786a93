//! Authenticated encryption of tenant secrets at rest: AES-256-GCM with a
//! fresh random nonce for each value, both carried as base64 text.

use aes_gcm::aead::{Aead, AeadCore, KeyInit, OsRng};
use aes_gcm::{Aes256Gcm, Nonce};
use base64::engine::general_purpose;
use base64::Engine;
use vstd::prelude::*;
use vstd::utf8::{decode_utf8, encode_utf8, valid_utf8};

verus! {

/// Length of a key in bytes.
pub const KEY_LEN: usize = 32;

/// Length of a nonce in bytes.
pub const NONCE_LEN: usize = 12;

/// Length of the authentication tag that follows the encrypted bytes.
pub const TAG_LEN: usize = 16;

/// The longest plaintext, in bytes, that the cipher accepts.
pub const MAX_PLAINTEXT_LEN: u64 = 0x10_0000_0000;

/// Why the cipher refused.
#[derive(Clone, Copy, Debug, PartialEq, Eq, Structural)]
pub enum EncryptionError {
    /// The configured key is not base64 text for 32 bytes.
    Config,
    /// The ciphertext and nonce do not belong to each other or to this key,
    /// or were altered.
    Authentication,
    /// The plaintext is longer than the cipher or this machine can take.
    PlaintextTooLong,
}

/// The standard, padded base64 text of `bytes`, as
/// `base64::engine::general_purpose::STANDARD` encodes them.
pub uninterp spec fn base64_text(bytes: Seq<u8>) -> Seq<char>;

/// The bytes that `base64::engine::general_purpose::STANDARD` decodes
/// `text` to, or `None` where it rejects the text.
pub uninterp spec fn base64_bytes(text: Seq<char>) -> Option<Seq<u8>>;

/// What AES-256-GCM, without associated data, makes of `plaintext` under
/// `key` and `nonce`: the encrypted bytes followed by the tag.
pub uninterp spec fn aes256_gcm_sealed(key: Seq<u8>, nonce: Seq<u8>, plaintext: Seq<u8>) -> Seq<u8>;

/// What AES-256-GCM, without associated data, recovers from `sealed` under
/// `key` and `nonce`, or `None` where it refuses: the tag does not match,
/// or `sealed` is shorter than a tag or longer than the cipher takes.
pub uninterp spec fn aes256_gcm_opened(key: Seq<u8>, nonce: Seq<u8>, sealed: Seq<u8>) -> Option<
    Seq<u8>,
>;

/// Calls `Engine::encode` of base64's `STANDARD` engine. The text is named
/// by `base64_text`; the engine's own decoder gives the bytes back. The
/// crate panics where the length of the text would overflow `usize`, which
/// the bound on the input rules out.
#[verifier::external_body]
fn base64_encode(bytes: &[u8]) -> (text: String)
    requires
        bytes@.len() <= usize::MAX / 4,
    ensures
        text@ == base64_text(bytes@),
        base64_bytes(text@) == Some(bytes@),
{
    general_purpose::STANDARD.encode(bytes)
}

/// Calls `Engine::decode` of base64's `STANDARD` engine, which either
/// yields the decoded bytes or rejects the text.
#[verifier::external_body]
fn base64_decode(text: &str) -> (bytes: Option<Vec<u8>>)
    ensures
        match bytes {
            Some(b) => base64_bytes(text@) == Some(b@),
            None => base64_bytes(text@) is None,
        },
{
    general_purpose::STANDARD.decode(text).ok()
}

/// Calls `Aead::encrypt` of `Aes256Gcm` without associated data. The cipher
/// refuses exactly the plaintexts above its maximum length; otherwise the
/// result is the plaintext's length plus the tag long, is named by
/// `aes256_gcm_sealed`, and opens again to the plaintext under the same key
/// and nonce.
#[verifier::external_body]
fn aead_seal(key: &Vec<u8>, nonce: &Vec<u8>, plaintext: &[u8]) -> (sealed: Option<Vec<u8>>)
    requires
        key@.len() == KEY_LEN,
        nonce@.len() == NONCE_LEN,
    ensures
        match sealed {
            Some(s) => {
                &&& plaintext@.len() <= MAX_PLAINTEXT_LEN
                &&& s@ == aes256_gcm_sealed(key@, nonce@, plaintext@)
                &&& s@.len() == plaintext@.len() + TAG_LEN
                &&& aes256_gcm_opened(key@, nonce@, s@) == Some(plaintext@)
            },
            None => plaintext@.len() > MAX_PLAINTEXT_LEN,
        },
{
    let cipher = Aes256Gcm::new_from_slice(key).ok()?;
    cipher.encrypt(Nonce::from_slice(nonce), plaintext).ok()
}

/// Calls `Aead::decrypt` of `Aes256Gcm` without associated data, which
/// either yields the plaintext or refuses.
#[verifier::external_body]
fn aead_open(key: &Vec<u8>, nonce: &Vec<u8>, sealed: &Vec<u8>) -> (opened: Option<Vec<u8>>)
    requires
        key@.len() == KEY_LEN,
        nonce@.len() == NONCE_LEN,
    ensures
        match opened {
            Some(p) => aes256_gcm_opened(key@, nonce@, sealed@) == Some(p@),
            None => aes256_gcm_opened(key@, nonce@, sealed@) is None,
        },
{
    let cipher = Aes256Gcm::new_from_slice(key).ok()?;
    cipher.decrypt(Nonce::from_slice(nonce), sealed.as_slice()).ok()
}

/// Calls `AeadCore::generate_nonce` of `Aes256Gcm` with the operating
/// system's random generator: 96 random bits.
#[verifier::external_body]
fn random_nonce() -> (nonce: Vec<u8>)
    ensures
        nonce@.len() == NONCE_LEN,
{
    Aes256Gcm::generate_nonce(&mut OsRng).to_vec()
}

/// Calls `KeyInit::generate_key` of `Aes256Gcm` with the operating system's
/// random generator: 256 random bits.
#[verifier::external_body]
fn random_key() -> (key: Vec<u8>)
    ensures
        key@.len() == KEY_LEN,
{
    Aes256Gcm::generate_key(&mut OsRng).to_vec()
}

/// Calls `String::from_utf8`, which accepts exactly the valid UTF-8 and
/// then holds the characters that the bytes encode.
#[verifier::external_body]
fn string_from_utf8(bytes: Vec<u8>) -> (text: Option<String>)
    ensures
        match text {
            Some(s) => valid_utf8(bytes@) && s@ == decode_utf8(bytes@),
            None => !valid_utf8(bytes@),
        },
{
    String::from_utf8(bytes).ok()
}

/// Whether a plaintext of `len` bytes can be sealed and its ciphertext
/// written as base64 on this machine.
pub open spec fn sealable(len: nat) -> bool {
    len <= MAX_PLAINTEXT_LEN && len + TAG_LEN <= usize::MAX / 4
}

/// What encrypting `plaintext` under `key` with `nonce` gives: the base64
/// text of the sealed bytes and that of the nonce.
pub open spec fn encrypt_spec(key: Seq<u8>, nonce: Seq<u8>, plaintext: Seq<char>) -> (Seq<char>, Seq<char>) {
    (base64_text(aes256_gcm_sealed(key, nonce, encode_utf8(plaintext))), base64_text(nonce))
}

/// What decrypting gives: the text, where both arguments are base64, the
/// nonce has twelve bytes, the tag matches and the plaintext is UTF-8;
/// an authentication error in every other case.
pub open spec fn decrypt_spec(key: Seq<u8>, ciphertext_b64: Seq<char>, nonce_b64: Seq<char>) -> Result<
    Seq<char>,
    EncryptionError,
> {
    match (base64_bytes(ciphertext_b64), base64_bytes(nonce_b64)) {
        (Some(sealed), Some(nonce)) => {
            if nonce.len() == NONCE_LEN {
                match aes256_gcm_opened(key, nonce, sealed) {
                    Some(plain) => {
                        if valid_utf8(plain) {
                            Ok(decode_utf8(plain))
                        } else {
                            Err(EncryptionError::Authentication)
                        }
                    },
                    None => Err(EncryptionError::Authentication),
                }
            } else {
                Err(EncryptionError::Authentication)
            }
        },
        _ => Err(EncryptionError::Authentication),
    }
}

/// That the pair of texts is what encrypting `plaintext` under `key` with
/// the 12-byte `nonce` gives: the nonce text decodes to the nonce, the
/// ciphertext text decodes to the sealed bytes, which are the plaintext's
/// bytes and a tag long, and both are the texts of `encrypt_spec`.
pub open spec fn sealed_with(
    key: Seq<u8>,
    nonce: Seq<u8>,
    plaintext: Seq<char>,
    ciphertext_b64: Seq<char>,
    nonce_b64: Seq<char>,
) -> bool {
    let sealed = aes256_gcm_sealed(key, nonce, encode_utf8(plaintext));
    &&& nonce.len() == NONCE_LEN
    &&& (ciphertext_b64, nonce_b64) == encrypt_spec(key, nonce, plaintext)
    &&& base64_bytes(nonce_b64) == Some(nonce)
    &&& base64_bytes(ciphertext_b64) == Some(sealed)
    &&& sealed.len() == encode_utf8(plaintext).len() + TAG_LEN
}

/// The key under which the tenants' secrets are stored.
pub struct EncryptionKey {
    key: Vec<u8>,
}

impl EncryptionKey {
    #[verifier::type_invariant]
    spec fn has_key_length(self) -> bool {
        self.key@.len() == KEY_LEN
    }

    /// The 32 bytes of the key.
    pub closed spec fn bytes(&self) -> Seq<u8> {
        self.key@
    }

    /// Reads a key from its base64 text, as a deployment configures it.
    /// Text that is not base64, or not for 32 bytes, is a configuration
    /// error.
    pub fn from_base64(key_base64: &str) -> (loaded: Result<Self, EncryptionError>)
        ensures
            match loaded {
                Ok(key) => base64_bytes(key_base64@) == Some(key.bytes()) && key.bytes().len()
                    == KEY_LEN,
                Err(e) => e == EncryptionError::Config && (base64_bytes(key_base64@) matches Some(
                    b,
                ) ==> b.len() != KEY_LEN),
            },
    {
        match base64_decode(key_base64) {
            Some(key) => {
                if key.len() != KEY_LEN {
                    Err(EncryptionError::Config)
                } else {
                    Ok(EncryptionKey { key })
                }
            },
            None => Err(EncryptionError::Config),
        }
    }

    /// Loads the key from what the process-wide configuration holds under
    /// the key's name. A missing value is a configuration error, as is one
    /// that `from_base64` refuses.
    pub fn from_env(configured: Option<&str>) -> (loaded: Result<Self, EncryptionError>)
        ensures
            match (configured, loaded) {
                (Some(text), Ok(key)) => base64_bytes(text@) == Some(key.bytes()) && key.bytes().len()
                    == KEY_LEN,
                (Some(text), Err(e)) => e == EncryptionError::Config && (base64_bytes(
                    text@,
                ) matches Some(b) ==> b.len() != KEY_LEN),
                (None, Ok(_)) => false,
                (None, Err(e)) => e == EncryptionError::Config,
            },
    {
        match configured {
            Some(text) => Self::from_base64(text),
            None => Err(EncryptionError::Config),
        }
    }

    /// A fresh random key as base64 text, which `from_base64` accepts.
    pub fn generate() -> (key_base64: String)
        ensures
            base64_bytes(key_base64@) matches Some(b) && b.len() == KEY_LEN,
    {
        let key = random_key();
        base64_encode(key.as_slice())
    }

    /// Encrypts `plaintext` under the given nonce. The nonce comes back as
    /// base64 text that decodes to it; the ciphertext is base64 text for the
    /// sealed bytes, which are the plaintext's bytes and a tag long.
    pub fn encrypt_with_nonce(&self, plaintext: &str, nonce: &Vec<u8>) -> (sealed: Result<
        (String, String),
        EncryptionError,
    >)
        requires
            nonce@.len() == NONCE_LEN,
        ensures
            sealed is Ok <==> sealable(encode_utf8(plaintext@).len()),
            match sealed {
                Ok((ciphertext_b64, nonce_b64)) => {
                    &&& sealed_with(
                        self.bytes(),
                        nonce@,
                        plaintext@,
                        ciphertext_b64@,
                        nonce_b64@,
                    )
                    &&& decrypt_spec(self.bytes(), ciphertext_b64@, nonce_b64@) == Ok::<
                        Seq<char>,
                        EncryptionError,
                    >(plaintext@)
                },
                Err(e) => e == EncryptionError::PlaintextTooLong,
            },
    {
        proof {
            use_type_invariant(self);
            vstd::utf8::encode_utf8_valid_utf8(plaintext@);
            vstd::utf8::encode_utf8_decode_utf8(plaintext@);
        }
        match aead_seal(&self.key, nonce, plaintext.as_bytes()) {
            Some(sealed) => {
                if sealed.len() > usize::MAX / 4 {
                    Err(EncryptionError::PlaintextTooLong)
                } else {
                    let ciphertext_b64 = base64_encode(sealed.as_slice());
                    let nonce_b64 = base64_encode(nonce.as_slice());
                    Ok((ciphertext_b64, nonce_b64))
                }
            },
            None => Err(EncryptionError::PlaintextTooLong),
        }
    }

    /// Encrypts `plaintext` under a fresh random nonce of 96 bits and
    /// returns the ciphertext and the nonce, both as base64 text: what
    /// `encrypt_with_nonce` returns for the nonce drawn. Decrypting the pair
    /// under this key gives the plaintext back.
    pub fn encrypt(&self, plaintext: &str) -> (sealed: Result<(String, String), EncryptionError>)
        ensures
            sealed is Ok <==> sealable(encode_utf8(plaintext@).len()),
            match sealed {
                Ok((ciphertext_b64, nonce_b64)) => {
                    &&& exists|nonce: Seq<u8>| #[trigger]
                        sealed_with(self.bytes(), nonce, plaintext@, ciphertext_b64@, nonce_b64@)
                    &&& decrypt_spec(self.bytes(), ciphertext_b64@, nonce_b64@) == Ok::<
                        Seq<char>,
                        EncryptionError,
                    >(plaintext@)
                },
                Err(e) => e == EncryptionError::PlaintextTooLong,
            },
    {
        let nonce = random_nonce();
        self.encrypt_with_nonce(plaintext, &nonce)
    }

    /// Decrypts a ciphertext with the nonce it was encrypted under, both
    /// given as base64 text. Anything that does not authenticate under this
    /// key is refused.
    pub fn decrypt(&self, ciphertext_b64: &str, nonce_b64: &str) -> (opened: Result<
        String,
        EncryptionError,
    >)
        ensures
            match opened {
                Ok(text) => decrypt_spec(self.bytes(), ciphertext_b64@, nonce_b64@) == Ok::<
                    Seq<char>,
                    EncryptionError,
                >(text@),
                Err(e) => decrypt_spec(self.bytes(), ciphertext_b64@, nonce_b64@) == Err::<
                    Seq<char>,
                    EncryptionError,
                >(e),
            },
    {
        proof {
            use_type_invariant(self);
        }
        let sealed = match base64_decode(ciphertext_b64) {
            Some(sealed) => sealed,
            None => {
                return Err(EncryptionError::Authentication);
            },
        };
        let nonce = match base64_decode(nonce_b64) {
            Some(nonce) => nonce,
            None => {
                return Err(EncryptionError::Authentication);
            },
        };
        if nonce.len() != NONCE_LEN {
            return Err(EncryptionError::Authentication);
        }
        match aead_open(&self.key, &nonce, &sealed) {
            Some(plain) => match string_from_utf8(plain) {
                Some(text) => Ok(text),
                None => Err(EncryptionError::Authentication),
            },
            None => Err(EncryptionError::Authentication),
        }
    }
}

/// Calls that drew different nonces return different nonce texts.
pub proof fn lemma_nonce_text_tells_the_nonce(
    key: Seq<u8>,
    first_nonce: Seq<u8>,
    first_plaintext: Seq<char>,
    first: (Seq<char>, Seq<char>),
    second_nonce: Seq<u8>,
    second_plaintext: Seq<char>,
    second: (Seq<char>, Seq<char>),
)
    requires
        sealed_with(key, first_nonce, first_plaintext, first.0, first.1),
        sealed_with(key, second_nonce, second_plaintext, second.0, second.1),
        first_nonce != second_nonce,
    ensures
        first.1 != second.1,
{
}

/// Decrypting fails in one way only: whatever is wrong with the texts, the
/// nonce, the tag or the plaintext, the error is the authentication error.
pub proof fn lemma_decrypt_fails_by_authentication(
    key: Seq<u8>,
    ciphertext_b64: Seq<char>,
    nonce_b64: Seq<char>,
)
    requires
        decrypt_spec(key, ciphertext_b64, nonce_b64) is Err,
    ensures
        decrypt_spec(key, ciphertext_b64, nonce_b64) == Err::<Seq<char>, EncryptionError>(
            EncryptionError::Authentication,
        ),
{
}

/// Where the cipher refuses the sealed bytes under the key and the nonce,
/// decrypting returns the authentication error and no text. Whether the
/// cipher refuses bytes that were sealed under another key, or altered, is
/// the cipher's own strength and is not claimed here.
pub proof fn lemma_refused_by_cipher_is_refused(
    key: Seq<u8>,
    ciphertext_b64: Seq<char>,
    nonce_b64: Seq<char>,
    sealed: Seq<u8>,
    nonce: Seq<u8>,
)
    requires
        base64_bytes(ciphertext_b64) == Some(sealed),
        base64_bytes(nonce_b64) == Some(nonce),
        aes256_gcm_opened(key, nonce, sealed) is None,
    ensures
        decrypt_spec(key, ciphertext_b64, nonce_b64) == Err::<Seq<char>, EncryptionError>(
            EncryptionError::Authentication,
        ),
{
}

} // verus!
