//! The decisions of a duplex session. The reader polls for a frame header and
//! stops once cancelled; the writer turns each line of input into a message
//! to send or into the end of the session. Whoever runs the socket performs
//! the actions that these functions choose.

use vstd::prelude::*;
use crate::chat::{ChatConfig, ChatError, ChatRole};
use crate::crypto::{session_key_of, SessionKey};
use crate::frame::announced_len;
use crate::frame::frame_length;

verus! {

/// Pause, in milliseconds, between two polls for a frame header.
pub const POLL_INTERVAL_MS: u64 = 50;

/// Pause, in milliseconds, between two connection attempts of a guest.
pub const RETRY_DELAY_MS: u64 = 1000;

/// The line that ends a session.
pub const EXIT_DIRECTIVE: &'static str = "/exit";

/// What `str::trim` leaves of `s`.
pub uninterp spec fn trim_whitespace(s: Seq<char>) -> Seq<char>;

/// Relies on `str::trim`: the text without its leading and trailing
/// whitespace, as a function of the text alone.
#[verifier::external_body]
fn trim(s: &str) -> (r: &str)
    ensures
        r@ == trim_whitespace(s@),
{
    s.trim()
}

/// Where a session meets its peer.
#[derive(Debug, Clone)]
pub enum Endpoint {
    /// Accept one peer on this port, on all interfaces.
    Listen(u16),
    /// Connect to this address and port, retrying until it succeeds.
    Connect(String, u16),
}

/// What a session needs once its configuration has been checked.
pub struct SessionPlan {
    pub key: SessionKey,
    pub endpoint: Endpoint,
}

/// The password of a configuration, when it has a usable one.
pub open spec fn usable_password(config: ChatConfig) -> bool {
    config.password matches Some(p) && p@.len() > 0
}

/// Checks a configuration and derives the session key from its password. A
/// missing or empty password is refused first, then a guest without an
/// address.
pub fn prepare_session(config: &ChatConfig) -> (r: Result<SessionPlan, ChatError>)
    ensures
        !usable_password(*config) ==> r == Err::<SessionPlan, ChatError>(ChatError::MissingPassword),
        usable_password(*config) && config.role == ChatRole::Guest && config.remote_ip is None
            ==> r == Err::<SessionPlan, ChatError>(ChatError::MissingRemoteAddress),
        r is Ok <==> usable_password(*config) && (config.role == ChatRole::Host || config.remote_ip is Some),
        r matches Ok(plan) ==> plan.key@ == session_key_of(config.password->Some_0@),
        r matches Ok(plan) ==> match plan.endpoint {
            Endpoint::Listen(port) => config.role == ChatRole::Host && port == config.port,
            Endpoint::Connect(ip, port) => config.role == ChatRole::Guest && port == config.port
                && config.remote_ip == Some(ip),
        },
{
    let password = match &config.password {
        Some(p) => p,
        None => return Err(ChatError::MissingPassword),
    };
    if password.as_str().is_empty() {
        return Err(ChatError::MissingPassword);
    }
    let endpoint = match config.role {
        ChatRole::Host => Endpoint::Listen(config.port),
        ChatRole::Guest => match &config.remote_ip {
            Some(ip) => Endpoint::Connect(ip.clone(), config.port),
            None => return Err(ChatError::MissingRemoteAddress),
        },
    };
    let key = SessionKey::derive(password.as_str());
    Ok(SessionPlan { key, endpoint })
}

/// What one non-blocking attempt to read a frame header came to.
#[derive(Debug, Clone, Copy)]
pub enum HeaderPoll {
    /// No complete header is available yet.
    Pending,
    /// A whole header was read.
    Ready([u8; 4]),
    /// The peer closed the connection before another header began.
    Closed,
    /// The read failed for a reason other than having to wait.
    Failed,
}

/// What the reader does next.
#[derive(Debug, Clone, Copy, PartialEq, Eq, Structural)]
pub enum ReaderAction {
    /// Restore blocking mode and report that no message came: the session is
    /// over.
    Finish,
    /// Sleep `POLL_INTERVAL_MS` and poll again.
    Wait,
    /// Restore blocking mode and read a record of this many bytes.
    ReadRecord(u32),
    /// Restore blocking mode and report the read failure.
    Abort,
}

/// Decides the reader's next step from a header poll and from the
/// cancellation token as observed after it. A cancelled reader that has no
/// header finishes at once, without error, and so does a reader whose peer
/// closed the connection.
pub fn header_poll_action(cancelled: bool, poll: HeaderPoll) -> (r: ReaderAction)
    ensures
        match poll {
            HeaderPoll::Pending => r == if cancelled { ReaderAction::Finish } else { ReaderAction::Wait },
            HeaderPoll::Ready(h) => r matches ReaderAction::ReadRecord(n) && n as nat == announced_len(h@),
            HeaderPoll::Closed => r == ReaderAction::Finish,
            HeaderPoll::Failed => r == ReaderAction::Abort,
        },
{
    match poll {
        HeaderPoll::Pending => if cancelled {
            ReaderAction::Finish
        } else {
            ReaderAction::Wait
        },
        HeaderPoll::Ready(h) => ReaderAction::ReadRecord(frame_length(h)),
        HeaderPoll::Closed => ReaderAction::Finish,
        HeaderPoll::Failed => ReaderAction::Abort,
    }
}

/// How a session ended, when it did not fail.
#[derive(Debug, Clone, Copy, PartialEq, Eq, Structural)]
pub enum SessionOutcome {
    /// Input ran out: the session ended without the local user leaving.
    Completed,
    /// The local user left, by the exit directive or because a send failed.
    UserInterrupted,
}

/// What the writer learns next.
#[derive(Debug, Clone)]
pub enum WriterEvent {
    /// A line of user input.
    Line(String),
    /// User input is exhausted.
    InputClosed,
    /// The last message could not be sent.
    SendFailed,
}

/// What the writer does next.
#[derive(Debug, Clone)]
pub enum WriterAction {
    /// Seal and send this text.
    Send(String),
    /// Set the cancellation token, shut the socket's read half, wait for the
    /// reader, and end the session with this outcome.
    Leave(SessionOutcome),
}

/// Decides the writer's next step. A line is trimmed; the exit directive
/// ends the session as the user's choice, and so does a failed send.
pub fn writer_action(event: &WriterEvent) -> (r: WriterAction)
    ensures
        match *event {
            WriterEvent::Line(line) => if trim_whitespace(line@) == EXIT_DIRECTIVE@ {
                r matches WriterAction::Leave(o) && o == SessionOutcome::UserInterrupted
            } else {
                r matches WriterAction::Send(t) && t@ == trim_whitespace(line@)
            },
            WriterEvent::InputClosed => r matches WriterAction::Leave(o) && o == SessionOutcome::Completed,
            WriterEvent::SendFailed => r matches WriterAction::Leave(o) && o == SessionOutcome::UserInterrupted,
        },
{
    match event {
        WriterEvent::Line(line) => {
            let text = trim(line.as_str()).to_owned();
            let directive = EXIT_DIRECTIVE.to_owned();
            if text == directive {
                WriterAction::Leave(SessionOutcome::UserInterrupted)
            } else {
                WriterAction::Send(text)
            }
        },
        WriterEvent::InputClosed => WriterAction::Leave(SessionOutcome::Completed),
        WriterEvent::SendFailed => WriterAction::Leave(SessionOutcome::UserInterrupted),
    }
}

} // verus!
