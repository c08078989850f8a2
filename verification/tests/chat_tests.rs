use amps_rust_ffi::message::Payload;
use amps_rust_ffi::chat::{
    chat_client_name, chat_filter, chat_line, chat_settings, incoming_line, is_white_space,
    outgoing_message, trim,
};
use amps_rust_ffi::Message;

fn data_message(data: &str) -> Message {
    Message {
        raw_topic: Some(b"chat\0".to_vec()),
        payload: Payload::Present(data.as_bytes().to_vec()),
        raw_command: Some(b"publish\0".to_vec()),
        raw_sow_key: None,
        raw_bookmark: None,
        raw_sub_id: None,
        raw_command_id: None,
    }
}

fn args(list: &[&str]) -> Vec<String> {
    list.iter().map(|s| s.to_string()).collect()
}

#[test]
fn settings_need_a_name() {
    assert!(chat_settings(&args(&["chat"])).is_none());
    assert!(chat_settings(&args(&[])).is_none());
}

#[test]
fn settings_defaults_and_overrides() {
    let s = chat_settings(&args(&["chat", "alice"])).unwrap();
    assert_eq!(s.name, "alice");
    assert_eq!(s.topic, "chat");
    assert_eq!(s.uri, "tcp://localhost:9007/amps/json");

    let s = chat_settings(&args(&["chat", "bob", "room"])).unwrap();
    assert_eq!(s.topic, "room");
    assert_eq!(s.uri, "tcp://localhost:9007/amps/json");

    let s = chat_settings(&args(&["chat", "bob", "room", "tcp://h:1/amps/json"])).unwrap();
    assert_eq!(s.uri, "tcp://h:1/amps/json");
}

#[test]
fn client_name_and_filter() {
    assert_eq!(chat_client_name("alice"), "chat-alice");
    assert_eq!(chat_filter("alice"), "/sender != 'alice'");
}

#[test]
fn incoming_lines() {
    let m = data_message(r#"{"sender": "bob", "text": "hi there"}"#);
    assert_eq!(incoming_line(&m), Some("bob: hi there".to_string()));

    let m = data_message(r#"{"text": "anonymous"}"#);
    assert_eq!(incoming_line(&m), Some("???: anonymous".to_string()));

    let m = data_message(r#"{"sender": "bob"}"#);
    assert_eq!(incoming_line(&m), Some("bob: ".to_string()));

    let m = data_message(r#"{"sender": 5, "text": "x"}"#);
    assert_eq!(incoming_line(&m), Some("???: x".to_string()));

    let m = data_message("not json");
    assert_eq!(incoming_line(&m), None);

    let m = data_message("");
    assert_eq!(incoming_line(&m), None);
}

#[test]
fn outgoing_messages() {
    assert_eq!(outgoing_message("alice", "   "), None);
    assert_eq!(outgoing_message("alice", ""), None);
    assert_eq!(
        outgoing_message("alice", "  hello  "),
        Some(r#"{"sender":"alice","text":"hello"}"#.to_string())
    );
    assert_eq!(
        outgoing_message("al\"ice", "a\nb"),
        Some(r#"{"sender":"al\"ice","text":"a\nb"}"#.to_string())
    );
}

#[test]
fn a_sent_line_reads_back() {
    let sent = outgoing_message("carol", " good morning ").unwrap();
    let m = data_message(&sent);
    assert_eq!(incoming_line(&m), Some("carol: good morning".to_string()));
}

#[test]
fn lines_from_members() {
    assert_eq!(chat_line(Some("bob".into()), Some("hi".into())), "bob: hi");
    assert_eq!(chat_line(None, Some("hi".into())), "???: hi");
    assert_eq!(chat_line(Some("bob".into()), None), "bob: ");
    assert_eq!(chat_line(None, None), "???: ");
}

#[test]
fn trim_matches_std() {
    let samples = [
        "", " ", "   ", "a", "  a  ", "\t\n a b \r\n", "\u{3000}x\u{2003}", "\u{85}y\u{a0}",
        "caf\u{e9} ", " \u{200b}z", "x\u{1680}", "\u{2028}\u{2029}\u{202f}\u{205f}",
    ];
    for s in samples {
        assert_eq!(trim(s), s.trim(), "trim of {:?}", s);
    }
}

#[test]
fn white_space_matches_std() {
    for u in 0u32..0x3100 {
        if let Some(c) = char::from_u32(u) {
            assert_eq!(is_white_space(c), c.is_whitespace(), "char {:#x}", u);
        }
    }
}

#[test]
fn blank_lines_are_not_sent() {
    assert_eq!(outgoing_message("alice", "   "), None);
    assert_eq!(outgoing_message("alice", "\t\u{3000}"), None);
}
