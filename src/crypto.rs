//! Password-based key derivation and authenticated encryption of messages.

use vstd::prelude::*;
use vstd::utf8::*;
use crate::chat::{ChatError, EncryptedMessage};
use aes_gcm::aead::Aead;
use aes_gcm::KeyInit;
use rand::TryRngCore;

verus! {

broadcast use vstd::utf8::group_utf8_lib;

/// Salt shared by every session: two parties with one password share one key.
pub const KEY_SALT: &'static str = "some_fixed_salt_for_heimdal_chat";

/// Work factor of the key derivation.
pub const KEY_ROUNDS: u32 = 100_000;

/// Length in bytes of a session key.
pub const KEY_LEN: usize = 32;

/// Length in bytes of a nonce.
pub const NONCE_LEN: usize = 12;

/// Length in bytes of the authentication tag appended to each ciphertext.
pub const TAG_LEN: usize = 16;

/// Largest plaintext, in bytes, that AES-GCM accepts.
pub const MAX_PLAINTEXT_LEN: u64 = 0x10_0000_0000;

#[verifier::external_type_specification]
#[verifier::external_body]
pub struct ExAeadError(aes_gcm::Error);

#[verifier::external_type_specification]
#[verifier::external_body]
pub struct ExOsError(rand::rand_core::OsError);

/// PBKDF2 with HMAC-SHA-256 over `password` and `salt`, `rounds` iterations,
/// `len` bytes of output.
pub uninterp spec fn pbkdf2_hmac_sha256(password: Seq<u8>, salt: Seq<u8>, rounds: nat, len: nat) -> Seq<u8>;

/// AES-256-GCM ciphertext (tag appended) of `plaintext`, no associated data.
pub uninterp spec fn aes256_gcm_seal(key: Seq<u8>, nonce: Seq<u8>, plaintext: Seq<u8>) -> Seq<u8>;

/// AES-256-GCM authenticated decryption, no associated data: `None` when the
/// tag does not match.
pub uninterp spec fn aes256_gcm_open(key: Seq<u8>, nonce: Seq<u8>, ciphertext: Seq<u8>) -> Option<Seq<u8>>;

/// The text that `String::from_utf8_lossy` makes of `bytes`.
pub uninterp spec fn utf8_lossy(bytes: Seq<u8>) -> Seq<char>;

/// Relies on `pbkdf2::pbkdf2_hmac::<sha2::Sha256>`: fills the output buffer
/// with the derived key, as a function of its arguments alone.
#[verifier::external_body]
fn pbkdf2_sha256(password: &[u8], salt: &[u8], rounds: u32) -> (r: [u8; 32])
    ensures
        r@ == pbkdf2_hmac_sha256(password@, salt@, rounds as nat, 32),
{
    let mut out = [0u8; 32];
    pbkdf2::pbkdf2_hmac::<sha2::Sha256>(password, salt, rounds, &mut out);
    out
}

/// Relies on `Aead::encrypt` of `aes_gcm::Aes256Gcm`: fails only on a
/// plaintext over `MAX_PLAINTEXT_LEN` bytes; otherwise returns the ciphertext
/// followed by a 16-byte tag, which decryption under the same key and nonce
/// turns back into the plaintext.
#[verifier::external_body]
fn aes256_gcm_encrypt(key: &[u8; 32], nonce: &[u8], plaintext: &[u8]) -> (r: Result<Vec<u8>, aes_gcm::Error>)
    requires
        nonce@.len() == 12,
    ensures
        r is Ok <==> plaintext@.len() <= MAX_PLAINTEXT_LEN,
        r is Ok ==> r->Ok_0@ == aes256_gcm_seal(key@, nonce@, plaintext@),
        r is Ok ==> r->Ok_0@.len() == plaintext@.len() + 16,
        r is Ok ==> aes256_gcm_open(key@, nonce@, r->Ok_0@) == Some(plaintext@),
{
    let cipher = aes_gcm::Aes256Gcm::new(aes_gcm::Key::<aes_gcm::Aes256Gcm>::from_slice(key));
    cipher.encrypt(aes_gcm::aead::generic_array::GenericArray::from_slice(nonce), plaintext)
}

/// Relies on `Aead::decrypt` of `aes_gcm::Aes256Gcm`: returns the plaintext
/// when the tag verifies and an error otherwise, in particular on a
/// ciphertext shorter than the tag.
#[verifier::external_body]
fn aes256_gcm_decrypt(key: &[u8; 32], nonce: &[u8], ciphertext: &[u8]) -> (r: Result<Vec<u8>, aes_gcm::Error>)
    requires
        nonce@.len() == 12,
    ensures
        r is Ok <==> aes256_gcm_open(key@, nonce@, ciphertext@) is Some,
        r is Ok ==> aes256_gcm_open(key@, nonce@, ciphertext@) == Some(r->Ok_0@),
        ciphertext@.len() < 16 ==> r is Err,
{
    let cipher = aes_gcm::Aes256Gcm::new(aes_gcm::Key::<aes_gcm::Aes256Gcm>::from_slice(key));
    cipher.decrypt(aes_gcm::aead::generic_array::GenericArray::from_slice(nonce), ciphertext)
}

/// Relies on `String::from_utf8_lossy`: valid UTF-8 is decoded unchanged.
#[verifier::external_body]
fn decode_utf8_lossy(bytes: &[u8]) -> (r: String)
    ensures
        r@ == utf8_lossy(bytes@),
        valid_utf8(bytes@) ==> r@ == decode_utf8(bytes@),
{
    String::from_utf8_lossy(bytes).into_owned()
}

/// Relies on `rand::rngs::OsRng` (`TryRngCore::try_fill_bytes`): twelve bytes
/// from the operating system's secure random source, or its error.
#[verifier::external_body]
fn os_random_nonce() -> (r: Result<[u8; 12], rand::rand_core::OsError>) {
    let mut nonce = [0u8; 12];
    rand::rngs::OsRng.try_fill_bytes(&mut nonce).map(|_| nonce)
}

} // verus!

verus! {

/// A 256-bit key derived from the session's password.
#[derive(Clone, Copy)]
pub struct SessionKey {
    bytes: [u8; 32],
}

impl View for SessionKey {
    type V = Seq<u8>;

    closed spec fn view(&self) -> Seq<u8> {
        self.bytes@
    }
}

/// The key that a password yields: PBKDF2-HMAC-SHA-256 over its UTF-8 bytes,
/// with the fixed salt and work factor.
pub open spec fn session_key_of(password: Seq<char>) -> Seq<u8> {
    pbkdf2_hmac_sha256(encode_utf8(password), encode_utf8(KEY_SALT@), KEY_ROUNDS as nat, KEY_LEN as nat)
}

/// What opening `ciphertext` under `key` and `nonce` gives: the text, decoded
/// from UTF-8 with invalid sequences replaced, or the reason it is refused.
pub open spec fn opened_text(key: Seq<u8>, nonce: Seq<u8>, ciphertext: Seq<u8>) -> Result<Seq<char>, ChatError> {
    if nonce.len() != NONCE_LEN {
        Err(ChatError::MalformedMessage)
    } else {
        match aes256_gcm_open(key, nonce, ciphertext) {
            None => Err(ChatError::Authentication),
            Some(p) => Ok(if valid_utf8(p) { decode_utf8(p) } else { utf8_lossy(p) }),
        }
    }
}

impl SessionKey {
    /// Derives the session key from a password.
    pub fn derive(password: &str) -> (r: SessionKey)
        ensures
            r@ == session_key_of(password@),
    {
        SessionKey { bytes: pbkdf2_sha256(password.as_bytes(), KEY_SALT.as_bytes(), KEY_ROUNDS) }
    }

    /// The raw key bytes.
    pub fn to_bytes(&self) -> (r: [u8; 32])
        ensures
            r@ == self@,
    {
        self.bytes
    }
}

/// Deriving a key twice from one password gives the same key.
pub proof fn key_derivation_is_deterministic(first: Seq<char>, second: Seq<char>)
    requires
        first == second,
    ensures
        session_key_of(first) == session_key_of(second),
{
}

/// Seals `text` under `key` with the given nonce. Whatever is sealed opens,
/// under the same key, to the same text.
pub fn seal_text_with_nonce(key: &SessionKey, nonce: [u8; 12], text: &str) -> (r: Result<EncryptedMessage, ChatError>)
    ensures
        r is Ok <==> encode_utf8(text@).len() <= MAX_PLAINTEXT_LEN,
        r is Err ==> r == Err::<EncryptedMessage, ChatError>(ChatError::Encryption),
        r matches Ok(m) ==> m.nonce@ == nonce@,
        r matches Ok(m) ==> m.ciphertext@ == aes256_gcm_seal(key@, nonce@, encode_utf8(text@)),
        r matches Ok(m) ==> m.ciphertext@.len() == encode_utf8(text@).len() + TAG_LEN,
        r matches Ok(m) ==> opened_text(key@, m.nonce@, m.ciphertext@) == Ok::<Seq<char>, ChatError>(text@),
{
    let nonce_bytes = vstd::slice::slice_to_vec(nonce.as_slice());
    match aes256_gcm_encrypt(&key.bytes, nonce.as_slice(), text.as_bytes()) {
        Ok(ciphertext) => {
            proof {
                encode_utf8_valid_utf8(text@);
                encode_utf8_decode_utf8(text@);
            }
            Ok(EncryptedMessage { nonce: nonce_bytes, ciphertext })
        },
        Err(_) => Err(ChatError::Encryption),
    }
}

/// Seals `text` under `key` with a fresh nonce from the secure random source.
pub fn seal_text(key: &SessionKey, text: &str) -> (r: Result<EncryptedMessage, ChatError>)
    ensures
        r is Err ==> r == Err::<EncryptedMessage, ChatError>(ChatError::RandomSource)
            || r == Err::<EncryptedMessage, ChatError>(ChatError::Encryption),
        encode_utf8(text@).len() <= MAX_PLAINTEXT_LEN ==> r != Err::<EncryptedMessage, ChatError>(ChatError::Encryption),
        r matches Ok(m) ==> m.nonce@.len() == NONCE_LEN,
        r matches Ok(m) ==> m.ciphertext@ == aes256_gcm_seal(key@, m.nonce@, encode_utf8(text@)),
        r matches Ok(m) ==> opened_text(key@, m.nonce@, m.ciphertext@) == Ok::<Seq<char>, ChatError>(text@),
{
    match os_random_nonce() {
        Ok(nonce) => seal_text_with_nonce(key, nonce, text),
        Err(_) => Err(ChatError::RandomSource),
    }
}

/// Opens a sealed message: checks the nonce's length, authenticates and
/// decrypts, and decodes the plaintext as UTF-8, replacing invalid sequences.
pub fn open_message(key: &SessionKey, message: &EncryptedMessage) -> (r: Result<String, ChatError>)
    ensures
        r matches Ok(s) ==> opened_text(key@, message.nonce@, message.ciphertext@) == Ok::<Seq<char>, ChatError>(s@),
        r matches Err(e) ==> opened_text(key@, message.nonce@, message.ciphertext@) == Err::<Seq<char>, ChatError>(e),
{
    if message.nonce.len() != NONCE_LEN {
        return Err(ChatError::MalformedMessage);
    }
    match aes256_gcm_decrypt(&key.bytes, message.nonce.as_slice(), message.ciphertext.as_slice()) {
        Ok(plaintext) => Ok(decode_utf8_lossy(plaintext.as_slice())),
        Err(_) => Err(ChatError::Authentication),
    }
}

} // verus!
