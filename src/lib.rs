//! A password-protected, point-to-point text channel: key derivation,
//! authenticated sealing of messages, length-prefixed framing, and the
//! decisions of the duplex session that drives them, and the parsing of the
//! command lines typed at the shell that starts it.

pub mod chat;
pub mod crypto;
pub mod frame;
pub mod search;
pub mod session;
pub mod shell;
