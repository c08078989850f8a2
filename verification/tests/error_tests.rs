use amps_rust_ffi::error::{
    AmpsError, AmpsResult, ErrorInfo, NulError, AMPS_FFI_ERROR_CONNECTION,
    AMPS_FFI_ERROR_INVALID_ARGUMENT, AMPS_FFI_ERROR_NULL_POINTER, AMPS_FFI_ERROR_TIMEOUT,
    AMPS_FFI_OK,
};
use amps_rust_ffi::client::c_string;

fn info_with(code: u32, msg: &[u8]) -> ErrorInfo {
    let mut error_info = ErrorInfo {
        code,
        message: vec![0; 1024],
    };
    for (i, &b) in msg.iter().enumerate() {
        error_info.message[i] = b;
    }
    error_info
}

#[test]
fn test_error_display_connection() {
    let err = AmpsError::Connection {
        message: "test message".to_string(),
    };
    assert_eq!(err.to_string(), "Connection error: test message");
}

#[test]
fn test_error_display_null_pointer() {
    let err = AmpsError::NullPointer;
    assert_eq!(err.to_string(), "Null pointer error");
}

#[test]
fn test_from_ffi_error_connection() {
    let error_info = info_with(AMPS_FFI_ERROR_CONNECTION, b"Connection refused");

    let err = AmpsError::from(error_info);
    assert!(matches!(err, AmpsError::Connection { .. }));
    if let AmpsError::Connection { message } = err {
        assert_eq!(message, "Connection refused");
    }
}

#[test]
fn test_from_ffi_error_timeout() {
    let error_info = info_with(AMPS_FFI_ERROR_TIMEOUT, b"Operation timed out after 5000ms");

    let err = AmpsError::from(error_info);
    assert!(matches!(err, AmpsError::TimedOut { .. }));
}

#[test]
fn test_from_ffi_error_null_pointer() {
    let error_info = ErrorInfo {
        code: AMPS_FFI_ERROR_NULL_POINTER,
        message: vec![0; 1024],
    };

    let err = AmpsError::from(error_info);
    assert_eq!(err, AmpsError::NullPointer);
}

#[test]
fn test_from_ffi_error_unknown_code() {
    let error_info = ErrorInfo {
        code: 999,
        message: vec![0; 1024],
    };

    let err = AmpsError::from(error_info);
    assert!(matches!(err, AmpsError::Unknown { .. }));
}

#[test]
fn test_from_nul_error() {
    let result = c_string("hello\0world");
    assert!(result.is_err());

    let err = AmpsError::from(result.unwrap_err());
    assert!(matches!(err, AmpsError::NulError { .. }));
}

#[test]
fn test_amps_result_type() {
    let ok_result: AmpsResult<i32> = Ok(42);
    assert_eq!(ok_result.unwrap(), 42);

    let err_result: AmpsResult<i32> = Err(AmpsError::NullPointer);
    assert!(err_result.is_err());
}

#[test]
fn test_all_error_variants_display() {
    let errors = vec![
        AmpsError::Connection { message: "test".into() },
        AmpsError::AlreadyConnected { message: "test".into() },
        AmpsError::Authentication { message: "test".into() },
        AmpsError::ConnectionRefused { message: "test".into() },
        AmpsError::Disconnected { message: "test".into() },
        AmpsError::NameInUse { message: "test".into() },
        AmpsError::NotEntitled { message: "test".into() },
        AmpsError::BadFilter { message: "test".into() },
        AmpsError::BadRegexTopic { message: "test".into() },
        AmpsError::BadSowKey { message: "test".into() },
        AmpsError::InvalidTopic { message: "test".into() },
        AmpsError::Publish { message: "test".into() },
        AmpsError::SubscriptionExists { message: "test".into() },
        AmpsError::PublishStoreGap { message: "test".into() },
        AmpsError::TimedOut { message: "test".into() },
        AmpsError::Unknown { message: "test".into() },
        AmpsError::NullPointer,
        AmpsError::InvalidArgument { message: "test".into() },
        AmpsError::NulError { message: "test".into() },
    ];

    for err in errors {
        let s = err.to_string();
        assert!(!s.is_empty(), "Error display should not be empty");
    }
}

#[test]
fn display_texts_of_each_prefix() {
    let m = || "m".to_string();
    assert_eq!(AmpsError::AlreadyConnected { message: m() }.to_string(), "Already connected: m");
    assert_eq!(AmpsError::Authentication { message: m() }.to_string(), "Authentication failed: m");
    assert_eq!(AmpsError::ConnectionRefused { message: m() }.to_string(), "Connection refused: m");
    assert_eq!(AmpsError::Disconnected { message: m() }.to_string(), "Disconnected: m");
    assert_eq!(AmpsError::NameInUse { message: m() }.to_string(), "Client name in use: m");
    assert_eq!(AmpsError::NotEntitled { message: m() }.to_string(), "Not entitled: m");
    assert_eq!(AmpsError::BadFilter { message: m() }.to_string(), "Bad filter expression: m");
    assert_eq!(AmpsError::BadRegexTopic { message: m() }.to_string(), "Bad regex topic: m");
    assert_eq!(AmpsError::BadSowKey { message: m() }.to_string(), "Bad SOW key: m");
    assert_eq!(AmpsError::InvalidTopic { message: m() }.to_string(), "Invalid topic: m");
    assert_eq!(AmpsError::Publish { message: m() }.to_string(), "Publish error: m");
    assert_eq!(
        AmpsError::SubscriptionExists { message: m() }.to_string(),
        "Subscription already exists: m"
    );
    assert_eq!(AmpsError::PublishStoreGap { message: m() }.to_string(), "Publish store gap: m");
    assert_eq!(AmpsError::TimedOut { message: m() }.to_string(), "Operation timed out: m");
    assert_eq!(AmpsError::Unknown { message: m() }.to_string(), "Unknown error: m");
    assert_eq!(AmpsError::InvalidArgument { message: m() }.to_string(), "Invalid argument: m");
    assert_eq!(AmpsError::NulError { message: m() }.to_string(), "String contains null bytes: m");
}

#[test]
fn unknown_code_message_names_the_code() {
    let err = AmpsError::from(info_with(999, b"odd"));
    assert_eq!(
        err,
        AmpsError::Unknown { message: "Unknown error code 999: odd".to_string() }
    );
    let err = AmpsError::from(info_with(4_000_000_000, b""));
    assert_eq!(
        err,
        AmpsError::Unknown { message: "Unknown error code 4000000000: ".to_string() }
    );
}

#[test]
fn ok_code_converts_to_unknown() {
    let err = AmpsError::from(info_with(AMPS_FFI_OK, b"ignored"));
    assert_eq!(err, AmpsError::Unknown { message: "No error (OK code)".to_string() });
}

#[test]
fn null_pointer_code_drops_the_message() {
    let err = AmpsError::from(info_with(AMPS_FFI_ERROR_NULL_POINTER, b"some text"));
    assert_eq!(err, AmpsError::NullPointer);
}

#[test]
fn each_code_maps_to_its_variant() {
    let expected = [
        AmpsError::Connection { message: "x".into() },
        AmpsError::AlreadyConnected { message: "x".into() },
        AmpsError::Authentication { message: "x".into() },
        AmpsError::ConnectionRefused { message: "x".into() },
        AmpsError::Disconnected { message: "x".into() },
        AmpsError::NameInUse { message: "x".into() },
        AmpsError::NotEntitled { message: "x".into() },
        AmpsError::BadFilter { message: "x".into() },
        AmpsError::BadRegexTopic { message: "x".into() },
        AmpsError::BadSowKey { message: "x".into() },
        AmpsError::InvalidTopic { message: "x".into() },
        AmpsError::Publish { message: "x".into() },
        AmpsError::SubscriptionExists { message: "x".into() },
        AmpsError::PublishStoreGap { message: "x".into() },
        AmpsError::TimedOut { message: "x".into() },
    ];
    for (i, e) in expected.iter().enumerate() {
        let got = AmpsError::from(info_with(AMPS_FFI_ERROR_CONNECTION + i as u32, b"x"));
        assert_eq!(&got, e);
    }
    let got = AmpsError::from(info_with(AMPS_FFI_ERROR_INVALID_ARGUMENT, b"x"));
    assert_eq!(got, AmpsError::InvalidArgument { message: "x".into() });
}

#[test]
fn message_without_terminator_uses_whole_buffer() {
    let error_info = ErrorInfo { code: AMPS_FFI_ERROR_CONNECTION, message: vec![b'a'; 1024] };
    let err = AmpsError::from(error_info);
    assert_eq!(err, AmpsError::Connection { message: "a".repeat(1024) });
}

#[test]
fn invalid_utf8_message_is_decoded_lossily() {
    let err = AmpsError::from(info_with(AMPS_FFI_ERROR_CONNECTION, &[b'o', 0xff, b'k']));
    assert_eq!(err, AmpsError::Connection { message: "o\u{FFFD}k".to_string() });
}

#[test]
fn nul_error_message_names_the_position() {
    let err = AmpsError::from(NulError { position: 5 });
    assert_eq!(
        err,
        AmpsError::NulError { message: "String contains null byte at position 5".to_string() }
    );
    assert_eq!(
        err.to_string(),
        "String contains null bytes: String contains null byte at position 5"
    );
    let err = AmpsError::from(NulError { position: 120 });
    assert_eq!(
        err,
        AmpsError::NulError { message: "String contains null byte at position 120".to_string() }
    );
}

#[test]
fn new_error_info_reports_no_error() {
    let info = ErrorInfo::new();
    assert_eq!(info.code, AMPS_FFI_OK);
    assert_eq!(info.message, vec![0u8; 1024]);
}
