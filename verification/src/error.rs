//! Error types: [`AmpsError`], the [`AmpsResult`] alias, the error record that the
//! C layer fills in ([`ErrorInfo`]) and its status codes.
use vstd::prelude::*;
use vstd::string::*;
use vstd::slice::slice_subrange;
use vstd::utf8::{decode_utf8, valid_utf8};

use crate::text::{c_str_bytes, c_str_length, decimal, decode_utf8_lossy, lemma_c_str_len, push_decimal, utf8_lossy};

verus! {

/// Status code of the C layer: no error.
pub const AMPS_FFI_OK: u32 = 0;
/// Status code of the C layer: general connection failure.
pub const AMPS_FFI_ERROR_CONNECTION: u32 = 1;
/// Status code of the C layer: already connected.
pub const AMPS_FFI_ERROR_ALREADY_CONNECTED: u32 = 2;
/// Status code of the C layer: authentication failed.
pub const AMPS_FFI_ERROR_AUTHENTICATION: u32 = 3;
/// Status code of the C layer: connection refused.
pub const AMPS_FFI_ERROR_CONNECTION_REFUSED: u32 = 4;
/// Status code of the C layer: disconnected.
pub const AMPS_FFI_ERROR_DISCONNECTED: u32 = 5;
/// Status code of the C layer: client name in use.
pub const AMPS_FFI_ERROR_NAME_IN_USE: u32 = 6;
/// Status code of the C layer: not entitled.
pub const AMPS_FFI_ERROR_NOT_ENTITLED: u32 = 7;
/// Status code of the C layer: bad filter expression.
pub const AMPS_FFI_ERROR_BAD_FILTER: u32 = 8;
/// Status code of the C layer: bad regex topic.
pub const AMPS_FFI_ERROR_BAD_REGEX_TOPIC: u32 = 9;
/// Status code of the C layer: bad SOW key.
pub const AMPS_FFI_ERROR_BAD_SOW_KEY: u32 = 10;
/// Status code of the C layer: invalid topic.
pub const AMPS_FFI_ERROR_INVALID_TOPIC: u32 = 11;
/// Status code of the C layer: publish error.
pub const AMPS_FFI_ERROR_PUBLISH: u32 = 12;
/// Status code of the C layer: subscription already exists.
pub const AMPS_FFI_ERROR_SUBSCRIPTION_EXISTS: u32 = 13;
/// Status code of the C layer: publish store gap.
pub const AMPS_FFI_ERROR_PUBLISH_STORE_GAP: u32 = 14;
/// Status code of the C layer: operation timed out.
pub const AMPS_FFI_ERROR_TIMEOUT: u32 = 15;
/// Status code of the C layer: null pointer.
pub const AMPS_FFI_ERROR_NULL_POINTER: u32 = 16;
/// Status code of the C layer: invalid argument.
pub const AMPS_FFI_ERROR_INVALID_ARGUMENT: u32 = 17;

/// Size of the message buffer of the C layer's error record.
pub const ERROR_MESSAGE_CAPACITY: usize = 1024;

/// The error record that the C layer fills in when a call fails: a status code
/// and a fixed-size message buffer holding a NUL-terminated text (not
/// terminated when the text was cut at the end of the buffer).
#[derive(Debug, Clone)]
pub struct ErrorInfo {
    /// The status code (`AMPS_FFI_OK` or one of the `AMPS_FFI_ERROR_*` codes).
    pub code: u32,
    /// The raw message buffer.
    pub message: Vec<u8>,
}

impl ErrorInfo {
    /// A record that reports no error, with an all-zero message buffer, as the
    /// bindings hand it to the C layer before each call.
    pub fn new() -> (info: ErrorInfo)
        ensures
            info.code == AMPS_FFI_OK,
            info.message@ == Seq::new(ERROR_MESSAGE_CAPACITY as nat, |i: int| 0u8),
    {
        let mut message: Vec<u8> = Vec::new();
        let mut i: usize = 0;
        while i < ERROR_MESSAGE_CAPACITY
            invariant
                i <= ERROR_MESSAGE_CAPACITY,
                message@ == Seq::new(i as nat, |j: int| 0u8),
            decreases ERROR_MESSAGE_CAPACITY - i,
        {
            message.push(0u8);
            i = i + 1;
            assert(message@ =~= Seq::new(i as nat, |j: int| 0u8));
        }
        ErrorInfo { code: AMPS_FFI_OK, message }
    }
}

/// The variant of an [`AmpsError`], without its message.
#[derive(Debug, Clone, Copy, PartialEq, Eq, Structural)]
pub enum ErrorKind {
    Connection,
    AlreadyConnected,
    Authentication,
    ConnectionRefused,
    Disconnected,
    NameInUse,
    NotEntitled,
    BadFilter,
    BadRegexTopic,
    BadSowKey,
    InvalidTopic,
    Publish,
    SubscriptionExists,
    PublishStoreGap,
    TimedOut,
    Unknown,
    NullPointer,
    InvalidArgument,
    NulError,
}

/// Error type for AMPS operations.
///
/// Each variant corresponds to a specific error condition and, but for
/// `NullPointer`, carries a message with details.
#[derive(Debug, Clone, PartialEq)]
pub enum AmpsError {
    /// Connection error - general connection failure
    Connection { message: String },
    /// Already connected - attempting to connect when already connected
    AlreadyConnected { message: String },
    /// Authentication failed - invalid credentials or not authorized
    Authentication { message: String },
    /// Connection refused - server rejected the connection
    ConnectionRefused { message: String },
    /// Disconnected - connection was lost
    Disconnected { message: String },
    /// Client name in use - the client name is already registered
    NameInUse { message: String },
    /// Not entitled - user lacks permission for the operation
    NotEntitled { message: String },
    /// Bad filter expression - invalid filter syntax
    BadFilter { message: String },
    /// Bad regex topic - invalid regex pattern for topic
    BadRegexTopic { message: String },
    /// Bad SOW key - invalid State-of-the-World key
    BadSowKey { message: String },
    /// Invalid topic - the topic does not exist or is invalid
    InvalidTopic { message: String },
    /// Publish error - error while publishing a message
    Publish { message: String },
    /// Subscription already exists - attempting to create a duplicate subscription
    SubscriptionExists { message: String },
    /// Publish store gap - gap detected in publish store
    PublishStoreGap { message: String },
    /// Operation timed out - the operation did not complete in time
    TimedOut { message: String },
    /// Unknown error - an unexpected error occurred
    Unknown { message: String },
    /// Null pointer error - a null pointer was passed where not allowed
    NullPointer,
    /// Invalid argument - an argument was invalid
    InvalidArgument { message: String },
    /// CString conversion error - string contains null bytes
    NulError { message: String },
}

/// Result type alias for AMPS operations.
pub type AmpsResult<T> = Result<T, AmpsError>;

impl View for AmpsError {
    /// The variant and the message's text (empty for `NullPointer`).
    type V = (ErrorKind, Seq<char>);

    open spec fn view(&self) -> (ErrorKind, Seq<char>) {
        match self {
            AmpsError::Connection { message } => (ErrorKind::Connection, message@),
            AmpsError::AlreadyConnected { message } => (ErrorKind::AlreadyConnected, message@),
            AmpsError::Authentication { message } => (ErrorKind::Authentication, message@),
            AmpsError::ConnectionRefused { message } => (ErrorKind::ConnectionRefused, message@),
            AmpsError::Disconnected { message } => (ErrorKind::Disconnected, message@),
            AmpsError::NameInUse { message } => (ErrorKind::NameInUse, message@),
            AmpsError::NotEntitled { message } => (ErrorKind::NotEntitled, message@),
            AmpsError::BadFilter { message } => (ErrorKind::BadFilter, message@),
            AmpsError::BadRegexTopic { message } => (ErrorKind::BadRegexTopic, message@),
            AmpsError::BadSowKey { message } => (ErrorKind::BadSowKey, message@),
            AmpsError::InvalidTopic { message } => (ErrorKind::InvalidTopic, message@),
            AmpsError::Publish { message } => (ErrorKind::Publish, message@),
            AmpsError::SubscriptionExists { message } => (ErrorKind::SubscriptionExists, message@),
            AmpsError::PublishStoreGap { message } => (ErrorKind::PublishStoreGap, message@),
            AmpsError::TimedOut { message } => (ErrorKind::TimedOut, message@),
            AmpsError::Unknown { message } => (ErrorKind::Unknown, message@),
            AmpsError::NullPointer => (ErrorKind::NullPointer, seq![]),
            AmpsError::InvalidArgument { message } => (ErrorKind::InvalidArgument, message@),
            AmpsError::NulError { message } => (ErrorKind::NulError, message@),
        }
    }
}

/// The text put before an error's message when it is displayed.
pub open spec fn display_prefix(kind: ErrorKind) -> Seq<char> {
    match kind {
        ErrorKind::Connection => "Connection error: "@,
        ErrorKind::AlreadyConnected => "Already connected: "@,
        ErrorKind::Authentication => "Authentication failed: "@,
        ErrorKind::ConnectionRefused => "Connection refused: "@,
        ErrorKind::Disconnected => "Disconnected: "@,
        ErrorKind::NameInUse => "Client name in use: "@,
        ErrorKind::NotEntitled => "Not entitled: "@,
        ErrorKind::BadFilter => "Bad filter expression: "@,
        ErrorKind::BadRegexTopic => "Bad regex topic: "@,
        ErrorKind::BadSowKey => "Bad SOW key: "@,
        ErrorKind::InvalidTopic => "Invalid topic: "@,
        ErrorKind::Publish => "Publish error: "@,
        ErrorKind::SubscriptionExists => "Subscription already exists: "@,
        ErrorKind::PublishStoreGap => "Publish store gap: "@,
        ErrorKind::TimedOut => "Operation timed out: "@,
        ErrorKind::Unknown => "Unknown error: "@,
        ErrorKind::NullPointer => "Null pointer error"@,
        ErrorKind::InvalidArgument => "Invalid argument: "@,
        ErrorKind::NulError => "String contains null bytes: "@,
    }
}

/// The displayed text of an error: its prefix followed by its message
/// (`NullPointer` has no message and displays its prefix alone).
pub open spec fn display_text(e: (ErrorKind, Seq<char>)) -> Seq<char> {
    if e.0 == ErrorKind::NullPointer {
        display_prefix(e.0)
    } else {
        display_prefix(e.0) + e.1
    }
}

/// Every variant's display prefix is non-empty.
proof fn lemma_prefix_nonempty(kind: ErrorKind)
    ensures
        display_prefix(kind).len() > 0,
{
    reveal_strlit("Connection error: ");
    reveal_strlit("Already connected: ");
    reveal_strlit("Authentication failed: ");
    reveal_strlit("Connection refused: ");
    reveal_strlit("Disconnected: ");
    reveal_strlit("Client name in use: ");
    reveal_strlit("Not entitled: ");
    reveal_strlit("Bad filter expression: ");
    reveal_strlit("Bad regex topic: ");
    reveal_strlit("Bad SOW key: ");
    reveal_strlit("Invalid topic: ");
    reveal_strlit("Publish error: ");
    reveal_strlit("Subscription already exists: ");
    reveal_strlit("Publish store gap: ");
    reveal_strlit("Operation timed out: ");
    reveal_strlit("Unknown error: ");
    reveal_strlit("Null pointer error");
    reveal_strlit("Invalid argument: ");
    reveal_strlit("String contains null bytes: ");
}

/// Every error displays a non-empty text.
pub proof fn lemma_display_nonempty(e: AmpsError)
    ensures
        display_text(e@).len() > 0,
{
    lemma_prefix_nonempty(e@.0);
}

/// An error's displayed text ends with its whole message, after a non-empty
/// prefix that depends on the variant alone.
pub proof fn lemma_display_ends_with_message(e: AmpsError)
    ensures
        display_text(e@).len() == display_prefix(e@.0).len() + e@.1.len(),
        display_text(e@).subrange(0, display_prefix(e@.0).len() as int) == display_prefix(e@.0),
        display_text(e@).subrange(display_prefix(e@.0).len() as int, display_text(e@).len() as int)
            == e@.1,
        display_prefix(e@.0).len() > 0,
{
    lemma_prefix_nonempty(e@.0);
    let p = display_prefix(e@.0);
    let t = display_text(e@);
    if e@.0 == ErrorKind::NullPointer {
        assert(e@.1 =~= Seq::<char>::empty());
        assert(t.subrange(p.len() as int, t.len() as int) =~= Seq::<char>::empty());
    } else {
        assert(t.subrange(p.len() as int, t.len() as int) =~= e@.1);
    }
    assert(t.subrange(0, p.len() as int) =~= p);
}

/// `prefix` followed by `message`, as a new string.
fn prefixed(prefix: &str, message: &String) -> (s: String)
    ensures
        s@ == prefix@ + message@,
{
    let mut s = String::from_str(prefix);
    s.append(message.as_str());
    s
}

impl AmpsError {
    /// The text this error displays (what `Display` prints for it in other Rust code).
    pub fn to_string(&self) -> (s: String)
        ensures
            s@ == display_text(self@),
    {
        match self {
            AmpsError::Connection { message } => prefixed("Connection error: ", message),
            AmpsError::AlreadyConnected { message } => prefixed("Already connected: ", message),
            AmpsError::Authentication { message } => prefixed("Authentication failed: ", message),
            AmpsError::ConnectionRefused { message } => prefixed("Connection refused: ", message),
            AmpsError::Disconnected { message } => prefixed("Disconnected: ", message),
            AmpsError::NameInUse { message } => prefixed("Client name in use: ", message),
            AmpsError::NotEntitled { message } => prefixed("Not entitled: ", message),
            AmpsError::BadFilter { message } => prefixed("Bad filter expression: ", message),
            AmpsError::BadRegexTopic { message } => prefixed("Bad regex topic: ", message),
            AmpsError::BadSowKey { message } => prefixed("Bad SOW key: ", message),
            AmpsError::InvalidTopic { message } => prefixed("Invalid topic: ", message),
            AmpsError::Publish { message } => prefixed("Publish error: ", message),
            AmpsError::SubscriptionExists { message } => prefixed(
                "Subscription already exists: ",
                message,
            ),
            AmpsError::PublishStoreGap { message } => prefixed("Publish store gap: ", message),
            AmpsError::TimedOut { message } => prefixed("Operation timed out: ", message),
            AmpsError::Unknown { message } => prefixed("Unknown error: ", message),
            AmpsError::NullPointer => String::from_str("Null pointer error"),
            AmpsError::InvalidArgument { message } => prefixed("Invalid argument: ", message),
            AmpsError::NulError { message } => prefixed("String contains null bytes: ", message),
        }
    }
}

/// The variant for a status code whose error carries the record's message
/// (all error codes of the C layer but the null-pointer one).
pub open spec fn message_kind(code: u32) -> Option<ErrorKind> {
    if code == AMPS_FFI_ERROR_CONNECTION {
        Some(ErrorKind::Connection)
    } else if code == AMPS_FFI_ERROR_ALREADY_CONNECTED {
        Some(ErrorKind::AlreadyConnected)
    } else if code == AMPS_FFI_ERROR_AUTHENTICATION {
        Some(ErrorKind::Authentication)
    } else if code == AMPS_FFI_ERROR_CONNECTION_REFUSED {
        Some(ErrorKind::ConnectionRefused)
    } else if code == AMPS_FFI_ERROR_DISCONNECTED {
        Some(ErrorKind::Disconnected)
    } else if code == AMPS_FFI_ERROR_NAME_IN_USE {
        Some(ErrorKind::NameInUse)
    } else if code == AMPS_FFI_ERROR_NOT_ENTITLED {
        Some(ErrorKind::NotEntitled)
    } else if code == AMPS_FFI_ERROR_BAD_FILTER {
        Some(ErrorKind::BadFilter)
    } else if code == AMPS_FFI_ERROR_BAD_REGEX_TOPIC {
        Some(ErrorKind::BadRegexTopic)
    } else if code == AMPS_FFI_ERROR_BAD_SOW_KEY {
        Some(ErrorKind::BadSowKey)
    } else if code == AMPS_FFI_ERROR_INVALID_TOPIC {
        Some(ErrorKind::InvalidTopic)
    } else if code == AMPS_FFI_ERROR_PUBLISH {
        Some(ErrorKind::Publish)
    } else if code == AMPS_FFI_ERROR_SUBSCRIPTION_EXISTS {
        Some(ErrorKind::SubscriptionExists)
    } else if code == AMPS_FFI_ERROR_PUBLISH_STORE_GAP {
        Some(ErrorKind::PublishStoreGap)
    } else if code == AMPS_FFI_ERROR_TIMEOUT {
        Some(ErrorKind::TimedOut)
    } else if code == AMPS_FFI_ERROR_INVALID_ARGUMENT {
        Some(ErrorKind::InvalidArgument)
    } else {
        None
    }
}

/// Each error code of the C layer has a variant of its own: two codes that
/// carry a message and stand for the same variant are the same code.
pub proof fn lemma_message_kind_injective(a: u32, b: u32)
    requires
        message_kind(a) is Some,
        message_kind(a) == message_kind(b),
    ensures
        a == b,
{
}

/// The text of the error record's message buffer: the C string at its start,
/// decoded as `String::from_utf8_lossy` decodes it (valid UTF-8 decodes as is).
pub open spec fn info_text(raw: Seq<u8>) -> Seq<char> {
    let bytes = c_str_bytes(raw);
    if valid_utf8(bytes) {
        decode_utf8(bytes)
    } else {
        utf8_lossy(bytes)
    }
}

/// The error that an error record of the C layer stands for.
pub open spec fn error_of_info(code: u32, raw: Seq<u8>) -> (ErrorKind, Seq<char>) {
    if code == AMPS_FFI_OK {
        (ErrorKind::Unknown, "No error (OK code)"@)
    } else if code == AMPS_FFI_ERROR_NULL_POINTER {
        (ErrorKind::NullPointer, seq![])
    } else {
        match message_kind(code) {
            Some(kind) => (kind, info_text(raw)),
            None => (
                ErrorKind::Unknown,
                "Unknown error code "@ + decimal(code as nat) + ": "@ + info_text(raw),
            ),
        }
    }
}

impl From<ErrorInfo> for AmpsError {
    /// Converts the C layer's error record to an `AmpsError`: the status code
    /// picks the variant, and the message is the record's text.
    fn from(error_info: ErrorInfo) -> (e: Self)
        ensures
            e@ == error_of_info(error_info.code, error_info.message@),
    {
        let raw = error_info.message.as_slice();
        let n = c_str_length(raw);
        proof {
            lemma_c_str_len(raw@);
        }
        let text = slice_subrange(raw, 0, n);
        assert(text@ =~= c_str_bytes(raw@));
        let message = decode_utf8_lossy(text);
        let code = error_info.code;
        if code == AMPS_FFI_OK {
            AmpsError::Unknown { message: String::from_str("No error (OK code)") }
        } else if code == AMPS_FFI_ERROR_NULL_POINTER {
            AmpsError::NullPointer
        } else if code == AMPS_FFI_ERROR_CONNECTION {
            AmpsError::Connection { message }
        } else if code == AMPS_FFI_ERROR_ALREADY_CONNECTED {
            AmpsError::AlreadyConnected { message }
        } else if code == AMPS_FFI_ERROR_AUTHENTICATION {
            AmpsError::Authentication { message }
        } else if code == AMPS_FFI_ERROR_CONNECTION_REFUSED {
            AmpsError::ConnectionRefused { message }
        } else if code == AMPS_FFI_ERROR_DISCONNECTED {
            AmpsError::Disconnected { message }
        } else if code == AMPS_FFI_ERROR_NAME_IN_USE {
            AmpsError::NameInUse { message }
        } else if code == AMPS_FFI_ERROR_NOT_ENTITLED {
            AmpsError::NotEntitled { message }
        } else if code == AMPS_FFI_ERROR_BAD_FILTER {
            AmpsError::BadFilter { message }
        } else if code == AMPS_FFI_ERROR_BAD_REGEX_TOPIC {
            AmpsError::BadRegexTopic { message }
        } else if code == AMPS_FFI_ERROR_BAD_SOW_KEY {
            AmpsError::BadSowKey { message }
        } else if code == AMPS_FFI_ERROR_INVALID_TOPIC {
            AmpsError::InvalidTopic { message }
        } else if code == AMPS_FFI_ERROR_PUBLISH {
            AmpsError::Publish { message }
        } else if code == AMPS_FFI_ERROR_SUBSCRIPTION_EXISTS {
            AmpsError::SubscriptionExists { message }
        } else if code == AMPS_FFI_ERROR_PUBLISH_STORE_GAP {
            AmpsError::PublishStoreGap { message }
        } else if code == AMPS_FFI_ERROR_TIMEOUT {
            AmpsError::TimedOut { message }
        } else if code == AMPS_FFI_ERROR_INVALID_ARGUMENT {
            AmpsError::InvalidArgument { message }
        } else {
            let mut full = String::from_str("Unknown error code ");
            push_decimal(&mut full, code as u64);
            full.append(": ");
            full.append(message.as_str());
            AmpsError::Unknown { message: full }
        }
    }
}

/// `From` for the error record is described by its `ensures` over the view:
/// a spec function cannot build the `String` of the message, so this impl does
/// not claim a spec-level value.
impl vstd::std_specs::convert::FromSpecImpl<ErrorInfo> for AmpsError {
    open spec fn obeys_from_spec() -> bool {
        false
    }

    open spec fn from_spec(v: ErrorInfo) -> AmpsError {
        arbitrary()
    }
}

/// The failure of a conversion to a C string: the string holds a NUL byte,
/// the first of them at `position` (a byte index).
#[derive(Debug, Clone, Copy, PartialEq, Eq, Structural)]
pub struct NulError {
    pub position: usize,
}

/// The message of the error that a NUL byte at `position` becomes.
pub open spec fn nul_message(position: nat) -> Seq<char> {
    "String contains null byte at position "@ + decimal(position)
}

impl From<NulError> for AmpsError {
    /// Converts a failed C-string conversion to an `AmpsError`.
    fn from(error: NulError) -> (e: Self)
        ensures
            e@ == (ErrorKind::NulError, nul_message(error.position as nat)),
    {
        let mut message = String::from_str("String contains null byte at position ");
        push_decimal(&mut message, error.position as u64);
        AmpsError::NulError { message }
    }
}

/// `From` for a NUL failure is described by its `ensures` over the view, as
/// for the error record above.
impl vstd::std_specs::convert::FromSpecImpl<NulError> for AmpsError {
    open spec fn obeys_from_spec() -> bool {
        false
    }

    open spec fn from_spec(v: NulError) -> AmpsError {
        arbitrary()
    }
}

} // verus!
