use amps_rust_ffi::message::Payload;
use amps_rust_ffi::Message;

fn c(s: &[u8]) -> Option<Vec<u8>> {
    Some(s.to_vec())
}

fn message(command: Option<Vec<u8>>, payload: &[u8]) -> Message {
    Message {
        raw_topic: c(b"orders\0"),
        payload: Payload::Present(payload.to_vec()),
        raw_command: command,
        raw_sow_key: c(b"key-1\0"),
        raw_bookmark: c(b"1|2|\0"),
        raw_sub_id: c(b"sub-9\0"),
        raw_command_id: None,
    }
}

#[test]
fn test_message_is_send_and_sync() {
    fn assert_send<T: Send>() {}
    fn assert_sync<T: Sync>() {}
    assert_send::<Message>();
    assert_sync::<Message>();
}

#[test]
fn header_fields_read_up_to_the_terminator() {
    let m = message(c(b"publish\0garbage"), b"{\"a\":1}");
    assert_eq!(m.topic(), "orders");
    assert_eq!(m.command(), "publish");
    assert_eq!(m.sow_key(), "key-1");
    assert_eq!(m.bookmark(), "1|2|");
    assert_eq!(m.sub_id(), "sub-9");
    assert_eq!(m.command_id(), "");
}

#[test]
fn null_or_invalid_field_reads_empty() {
    let m = message(None, b"");
    assert_eq!(m.command(), "");
    let m = message(c(&[0xc3, 0x28, 0]), b"");
    assert_eq!(m.command(), "");
    let m = message(c("caf\u{e9}\0".as_bytes()), b"");
    assert_eq!(m.command(), "caf\u{e9}");
}

#[test]
fn data_and_length() {
    let m = message(c(b"publish\0"), b"{\"id\": \"msg-test\", \"value\": 123}");
    assert_eq!(m.data(), "{\"id\": \"msg-test\", \"value\": 123}");
    assert_eq!(m.data_bytes(), b"{\"id\": \"msg-test\", \"value\": 123}");
    assert_eq!(m.data_len(), 32);
    assert!(m.has_data());

    let empty = message(c(b"publish\0"), b"");
    assert_eq!(empty.data(), "");
    assert_eq!(empty.data_bytes(), b"");
    assert_eq!(empty.data_len(), 0);
    assert!(!empty.has_data());

    let binary = message(c(b"publish\0"), &[0xff, 0xfe, 1]);
    assert_eq!(binary.data(), "");
    assert_eq!(binary.data_bytes(), &[0xff, 0xfe, 1]);
    assert_eq!(binary.data_len(), 3);
    assert!(binary.has_data());
}

#[test]
fn command_markers() {
    let begin = message(c(b"group_begin\0"), b"");
    assert!(begin.is_group_begin());
    assert!(!begin.is_group_end());
    assert!(!begin.is_sow_delete());

    let end = message(c(b"group_end\0"), b"");
    assert!(!end.is_group_begin());
    assert!(end.is_group_end());
    assert!(!end.is_sow_delete());

    let del = message(c(b"sow_delete\0"), b"");
    assert!(!del.is_group_begin());
    assert!(!del.is_group_end());
    assert!(del.is_sow_delete());

    let publish = message(c(b"publish\0"), b"");
    assert!(!publish.is_group_begin());
    assert!(!publish.is_group_end());
    assert!(!publish.is_sow_delete());

    let longer = message(c(b"group_begin_x\0"), b"");
    assert!(!longer.is_group_begin());
    let cut = message(c(b"group_begin"), b"");
    assert!(cut.is_group_begin());
}

#[test]
fn data_len_is_the_reported_length() {
    let mut m = message(c(b"publish\0"), b"");
    m.payload = Payload::Absent { reported_len: 12 };
    assert_eq!(m.data_len(), 12);
    assert!(m.has_data());
    assert_eq!(m.data(), "");
    assert_eq!(m.data_bytes(), b"");

    m.payload = Payload::Absent { reported_len: 0 };
    assert_eq!(m.data_len(), 0);
    assert!(!m.has_data());
    assert_eq!(m.data(), "");
    assert_eq!(m.data_bytes(), b"");
}

#[test]
fn debug_text_describes_the_message() {
    let m = message(c(b"publish\0"), b"say \"hi\"");
    assert_eq!(
        m.debug_text(),
        r#"Message { topic: "orders", command: "publish", sow_key: "key-1", sub_id: "sub-9", data_len: 8, data: "say \"hi\"" }"#
    );
    let m = message(None, b"");
    assert_eq!(
        m.debug_text(),
        r#"Message { topic: "orders", command: "", sow_key: "key-1", sub_id: "sub-9", data_len: 0, data: "" }"#
    );
}
