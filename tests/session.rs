use heimdal::chat::{ChatConfig, ChatError, ChatRole, EncryptedMessage};
use heimdal::crypto::{open_message, seal_text, SessionKey};
use heimdal::frame::{encode_frame, frame_length, parse_frame};
use heimdal::session::{
    header_poll_action, prepare_session, writer_action, Endpoint, HeaderPoll, ReaderAction,
    SessionOutcome, WriterAction, WriterEvent,
};

fn config(role: ChatRole, remote_ip: Option<&str>, password: Option<&str>) -> ChatConfig {
    ChatConfig {
        role,
        chat_name: "room".to_string(),
        port: 18080,
        remote_ip: remote_ip.map(|s| s.to_string()),
        password: password.map(|s| s.to_string()),
    }
}

#[test]
fn missing_password_is_refused() {
    let r = prepare_session(&config(ChatRole::Host, None, None));
    assert!(matches!(r, Err(ChatError::MissingPassword)));
    let r = prepare_session(&config(ChatRole::Guest, Some("127.0.0.1"), Some("")));
    assert!(matches!(r, Err(ChatError::MissingPassword)));
    let r = prepare_session(&config(ChatRole::Guest, None, None));
    assert!(matches!(r, Err(ChatError::MissingPassword)));
}

#[test]
fn guest_needs_an_address() {
    let r = prepare_session(&config(ChatRole::Guest, None, Some("correct-horse")));
    assert!(matches!(r, Err(ChatError::MissingRemoteAddress)));
}

#[test]
fn host_listens_on_its_port() {
    let plan = prepare_session(&config(ChatRole::Host, None, Some("correct-horse"))).unwrap();
    assert!(matches!(plan.endpoint, Endpoint::Listen(18080)));
    assert_eq!(plan.key.to_bytes(), SessionKey::derive("correct-horse").to_bytes());
}

#[test]
fn guest_connects_to_its_address() {
    let plan = prepare_session(&config(ChatRole::Guest, Some("127.0.0.1"), Some("pw"))).unwrap();
    match plan.endpoint {
        Endpoint::Connect(ip, port) => {
            assert_eq!(ip, "127.0.0.1");
            assert_eq!(port, 18080);
        }
        Endpoint::Listen(_) => panic!("a guest does not listen"),
    }
    assert_eq!(plan.key.to_bytes(), SessionKey::derive("pw").to_bytes());
}

#[test]
fn pending_header_waits_until_cancelled() {
    assert_eq!(header_poll_action(false, HeaderPoll::Pending), ReaderAction::Wait);
    assert_eq!(header_poll_action(true, HeaderPoll::Pending), ReaderAction::Finish);
}

#[test]
fn ready_header_reads_its_record() {
    assert_eq!(header_poll_action(false, HeaderPoll::Ready([0, 0, 1, 2])), ReaderAction::ReadRecord(258));
    assert_eq!(header_poll_action(true, HeaderPoll::Ready([0, 0, 0, 5])), ReaderAction::ReadRecord(5));
}

#[test]
fn closed_connection_finishes_cleanly() {
    assert_eq!(header_poll_action(false, HeaderPoll::Closed), ReaderAction::Finish);
    assert_eq!(header_poll_action(true, HeaderPoll::Closed), ReaderAction::Finish);
}

#[test]
fn failed_header_read_aborts() {
    assert_eq!(header_poll_action(false, HeaderPoll::Failed), ReaderAction::Abort);
    assert_eq!(header_poll_action(true, HeaderPoll::Failed), ReaderAction::Abort);
}

#[test]
fn exit_directive_interrupts() {
    let a = writer_action(&WriterEvent::Line("/exit\n".to_string()));
    assert!(matches!(a, WriterAction::Leave(SessionOutcome::UserInterrupted)));
    let a = writer_action(&WriterEvent::Line("   /exit  ".to_string()));
    assert!(matches!(a, WriterAction::Leave(SessionOutcome::UserInterrupted)));
}

#[test]
fn lines_are_sent_trimmed() {
    match writer_action(&WriterEvent::Line("  hello there \r\n".to_string())) {
        WriterAction::Send(t) => assert_eq!(t, "hello there"),
        WriterAction::Leave(_) => panic!("a plain line is sent"),
    }
    match writer_action(&WriterEvent::Line("/exit now".to_string())) {
        WriterAction::Send(t) => assert_eq!(t, "/exit now"),
        WriterAction::Leave(_) => panic!("only the bare directive leaves"),
    }
}

#[test]
fn failed_send_interrupts_and_closed_input_completes() {
    assert!(matches!(writer_action(&WriterEvent::SendFailed), WriterAction::Leave(SessionOutcome::UserInterrupted)));
    assert!(matches!(writer_action(&WriterEvent::InputClosed), WriterAction::Leave(SessionOutcome::Completed)));
}

fn byte_array(v: &serde_json::Value) -> Vec<u8> {
    v.as_array().unwrap().iter().map(|b| b.as_u64().unwrap() as u8).collect()
}

fn deliver(from: &SessionKey, to: &SessionKey, text: &str) -> Result<String, ChatError> {
    let sealed = seal_text(from, text)?;
    let mut fields = serde_json::Map::new();
    fields.insert("nonce".to_string(), serde_json::Value::from(sealed.nonce.clone()));
    fields.insert("ciphertext".to_string(), serde_json::Value::from(sealed.ciphertext.clone()));
    let record = serde_json::to_vec(&serde_json::Value::Object(fields)).unwrap();
    let frame = encode_frame(&record)?;
    let header = [frame[0], frame[1], frame[2], frame[3]];
    let len = frame_length(header);
    assert_eq!(header_poll_action(false, HeaderPoll::Ready(header)), ReaderAction::ReadRecord(len));
    let body = parse_frame(&frame).unwrap();
    assert_eq!(body.len(), len as usize);
    let value: serde_json::Value = serde_json::from_slice(&body).unwrap();
    let received = EncryptedMessage { nonce: byte_array(&value["nonce"]), ciphertext: byte_array(&value["ciphertext"]) };
    open_message(to, &received)
}

#[test]
fn host_and_guest_exchange_messages() {
    let host = prepare_session(&config(ChatRole::Host, None, Some("correct-horse"))).unwrap();
    let guest = prepare_session(&config(ChatRole::Guest, Some("127.0.0.1"), Some("correct-horse"))).unwrap();
    assert_eq!(deliver(&guest.key, &host.key, "hello"), Ok("hello".to_string()));
    assert_eq!(deliver(&host.key, &guest.key, "hi back"), Ok("hi back".to_string()));
    assert!(matches!(writer_action(&WriterEvent::Line("/exit".to_string())), WriterAction::Leave(SessionOutcome::UserInterrupted)));
    assert_eq!(header_poll_action(true, HeaderPoll::Pending), ReaderAction::Finish);
}
