//! The data of a chat session: its configuration, the sealed message that
//! travels on the wire, and the ways a session can fail.

use vstd::prelude::*;

verus! {

/// One authenticated, encrypted message: the nonce it was sealed under and
/// the ciphertext with its tag appended.
#[derive(Debug, Clone)]
pub struct EncryptedMessage {
    pub nonce: Vec<u8>,
    pub ciphertext: Vec<u8>,
}

/// Which end of the connection a party takes.
#[derive(Debug, Clone, Copy, PartialEq, Eq, Structural)]
pub enum ChatRole {
    Host,
    Guest,
}

/// What a session is started with. `remote_ip` is needed by a guest only.
#[derive(Debug, Clone)]
pub struct ChatConfig {
    pub role: ChatRole,
    pub chat_name: String,
    pub port: u16,
    pub remote_ip: Option<String>,
    pub password: Option<String>,
}

/// The failures a session can meet before or while exchanging messages.
#[derive(Debug, Clone, Copy, PartialEq, Eq, Structural)]
pub enum ChatError {
    /// No password, or an empty one, was given.
    MissingPassword,
    /// A guest was given no address to connect to.
    MissingRemoteAddress,
    /// The secure random source failed to supply a nonce.
    RandomSource,
    /// The plaintext could not be encrypted.
    Encryption,
    /// The record does not carry a well-formed nonce.
    MalformedMessage,
    /// The ciphertext failed authentication: wrong key or tampering.
    Authentication,
    /// The record is too long for a four-byte length prefix.
    FrameTooLarge,
}

} // verus!
