//! The [`Message`] type: a message received from AMPS, with accessors for its
//! payload and header fields.
use vstd::prelude::*;
use vstd::slice::slice_subrange;
use vstd::string::*;
use vstd::utf8::{
    decode_utf8_encode_utf8, encode_utf8, encode_utf8_decode_utf8, encode_utf8_valid_utf8,
};

use crate::text::{
    c_str_bytes, c_str_len, c_str_length, debug_quoted, nul_free, decimal, lemma_c_str_len, push_decimal, str_debug, str_eq,
    utf8_or_empty, utf8_str_or_empty,
};

verus! {

/// A message received from AMPS.
///
/// It holds what the C layer reports for the message: its payload, and for
/// each header field the memory of the C string it returned, from its first
/// byte on (`None` where it returned a null pointer).  The accessors read the
/// fields as the C layer's strings are read: up to the first NUL byte, as
/// UTF-8, and as the empty text where that fails.
pub struct Message {
    /// The topic's C string.
    pub raw_topic: Option<Vec<u8>>,
    /// The payload.
    pub payload: Payload,
    /// The command's C string.
    pub raw_command: Option<Vec<u8>>,
    /// The SOW key's C string.
    pub raw_sow_key: Option<Vec<u8>>,
    /// The bookmark's C string.
    pub raw_bookmark: Option<Vec<u8>>,
    /// The subscription ID's C string.
    pub raw_sub_id: Option<Vec<u8>>,
    /// The command ID's C string.
    pub raw_command_id: Option<Vec<u8>>,
}

/// What the C layer reports of a message's payload: a data pointer and a
/// length.  Either the pointer is null, and only the length is known, or the
/// payload is the `length` bytes the pointer points at.
pub enum Payload {
    /// A null data pointer, with the length that was reported beside it.
    Absent { reported_len: usize },
    /// The bytes at the data pointer (as many as the reported length).
    Present(Vec<u8>),
}

/// The payload bytes that can be read: none behind a null pointer.
pub open spec fn payload_bytes(p: Payload) -> Seq<u8> {
    match p {
        Payload::Absent { .. } => seq![],
        Payload::Present(bytes) => bytes@,
    }
}

/// The payload length the C layer reported.
pub open spec fn payload_len(p: Payload) -> nat {
    match p {
        Payload::Absent { reported_len } => reported_len as nat,
        Payload::Present(bytes) => bytes@.len(),
    }
}

/// The bytes of an optional buffer (`None` for a null pointer).
pub open spec fn raw_bytes(raw: Option<Vec<u8>>) -> Option<Seq<u8>> {
    match raw {
        Some(bytes) => Some(bytes@),
        None => None,
    }
}

/// The text of a header field: empty for a null pointer, otherwise the C string
/// at the start of the buffer read as UTF-8 (empty when it is not valid UTF-8).
pub open spec fn field_text(raw: Option<Seq<u8>>) -> Seq<char> {
    match raw {
        Some(bytes) => utf8_or_empty(c_str_bytes(bytes)),
        None => seq![],
    }
}

/// Reads a header field as text.
fn field_str(raw: &Option<Vec<u8>>) -> (s: &str)
    ensures
        s@ == field_text(raw_bytes(*raw)),
{
    match raw {
        Some(buffer) => {
            let bytes = buffer.as_slice();
            let n = c_str_length(bytes);
            proof {
                lemma_c_str_len(bytes@);
            }
            let c_str = slice_subrange(bytes, 0, n);
            assert(c_str@ =~= c_str_bytes(bytes@));
            utf8_str_or_empty(c_str)
        },
        None => {
            let e = "";
            proof {
                reveal_strlit("");
            }
            e
        },
    }
}

impl Message {
    /// The text of the topic field.
    pub open spec fn topic_text(&self) -> Seq<char> {
        field_text(raw_bytes(self.raw_topic))
    }

    /// The text of the command field.
    pub open spec fn command_text(&self) -> Seq<char> {
        field_text(raw_bytes(self.raw_command))
    }

    /// Returns the message data/payload as text: the payload read as UTF-8, or an
    /// empty string when there is no payload or it is not valid UTF-8.
    pub fn data(&self) -> (s: &str)
        ensures
            s@ == utf8_or_empty(payload_bytes(self.payload)),
    {
        let e = "";
        proof {
            reveal_strlit("");
        }
        match &self.payload {
            Payload::Absent { .. } => {
                assert(utf8_or_empty(payload_bytes(self.payload)) =~= seq![]);
                e
            },
            Payload::Present(bytes) => {
                if bytes.len() == 0 {
                    assert(utf8_or_empty(payload_bytes(self.payload)) =~= seq![]);
                    return e;
                }
                utf8_str_or_empty(bytes.as_slice())
            },
        }
    }

    /// Returns the data as raw bytes (empty when there are none).
    pub fn data_bytes(&self) -> (b: &[u8])
        ensures
            b@ == payload_bytes(self.payload),
    {
        match &self.payload {
            Payload::Absent { .. } => {
                let empty: &[u8] = &[];
                assert(empty@ =~= seq![]);
                empty
            },
            Payload::Present(bytes) => bytes.as_slice(),
        }
    }

    /// Returns the topic this message was published to or received from
    /// (empty if unavailable).
    pub fn topic(&self) -> (s: &str)
        ensures
            s@ == self.topic_text(),
            s@ == field_text(raw_bytes(self.raw_topic)),
    {
        field_str(&self.raw_topic)
    }

    /// Returns the AMPS command type of this message, such as `publish`, `sow`,
    /// `delta_publish`, `group_begin` or `group_end` (empty if unavailable).
    pub fn command(&self) -> (s: &str)
        ensures
            s@ == self.command_text(),
            s@ == field_text(raw_bytes(self.raw_command)),
    {
        field_str(&self.raw_command)
    }

    /// Returns the SOW key of this message (empty if unavailable).
    pub fn sow_key(&self) -> (s: &str)
        ensures
            s@ == field_text(raw_bytes(self.raw_sow_key)),
    {
        field_str(&self.raw_sow_key)
    }

    /// Returns the bookmark of this message (empty if unavailable).
    pub fn bookmark(&self) -> (s: &str)
        ensures
            s@ == field_text(raw_bytes(self.raw_bookmark)),
    {
        field_str(&self.raw_bookmark)
    }

    /// Returns the subscription ID this message was received on (empty if unavailable).
    pub fn sub_id(&self) -> (s: &str)
        ensures
            s@ == field_text(raw_bytes(self.raw_sub_id)),
    {
        field_str(&self.raw_sub_id)
    }

    /// Returns the command ID of this message (empty if unavailable).
    pub fn command_id(&self) -> (s: &str)
        ensures
            s@ == field_text(raw_bytes(self.raw_command_id)),
    {
        field_str(&self.raw_command_id)
    }

    /// Checks if this message is a subscription group begin marker.
    pub fn is_group_begin(&self) -> (r: bool)
        ensures
            r == (self.command_text() == "group_begin"@),
    {
        str_eq(self.command(), "group_begin")
    }

    /// Checks if this message is a subscription group end marker.
    pub fn is_group_end(&self) -> (r: bool)
        ensures
            r == (self.command_text() == "group_end"@),
    {
        str_eq(self.command(), "group_end")
    }

    /// Checks if this message is a SOW delete notification.
    pub fn is_sow_delete(&self) -> (r: bool)
        ensures
            r == (self.command_text() == "sow_delete"@),
    {
        str_eq(self.command(), "sow_delete")
    }

    /// Returns the data length in bytes, as the C layer reports it.
    pub fn data_len(&self) -> (n: usize)
        ensures
            n == payload_len(self.payload),
            match self.payload {
                Payload::Absent { reported_len } => n == reported_len,
                Payload::Present(bytes) => n == bytes@.len(),
            },
    {
        match &self.payload {
            Payload::Absent { reported_len } => *reported_len,
            Payload::Present(bytes) => bytes.len(),
        }
    }

    /// Checks if the message has any data payload.
    pub fn has_data(&self) -> (b: bool)
        ensures
            b == (payload_len(self.payload) > 0),
            b == (match self.payload {
                Payload::Absent { reported_len } => reported_len > 0,
                Payload::Present(bytes) => bytes@.len() > 0,
            }),
    {
        self.data_len() > 0
    }
}

/// The text that describes a message for debugging: its topic, command, SOW
/// key, subscription ID, data length and data, in the form `Debug` writes a struct.
pub open spec fn debug_description(m: &Message) -> Seq<char> {
    "Message { topic: "@ + debug_quoted(m.topic_text()) + ", command: "@ + debug_quoted(
        m.command_text(),
    ) + ", sow_key: "@ + debug_quoted(field_text(raw_bytes(m.raw_sow_key))) + ", sub_id: "@
        + debug_quoted(field_text(raw_bytes(m.raw_sub_id))) + ", data_len: "@ + decimal(
        payload_len(m.payload),
    ) + ", data: "@ + debug_quoted(utf8_or_empty(payload_bytes(m.payload))) + " }"@
}

impl Message {
    /// Describes the message for debugging: topic, command, SOW key,
    /// subscription ID, data length and data.
    pub fn debug_text(&self) -> (s: String)
        ensures
            s@ == debug_description(self),
    {
        let mut s = String::from_str("Message { topic: ");
        let q = str_debug(self.topic());
        s.append(q.as_str());
        s.append(", command: ");
        let q = str_debug(self.command());
        s.append(q.as_str());
        s.append(", sow_key: ");
        let q = str_debug(self.sow_key());
        s.append(q.as_str());
        s.append(", sub_id: ");
        let q = str_debug(self.sub_id());
        s.append(q.as_str());
        s.append(", data_len: ");
        push_decimal(&mut s, self.data_len() as u64);
        s.append(", data: ");
        let q = str_debug(self.data());
        s.append(q.as_str());
        s.append(" }");
        s
    }
}

/// The length of a payload is the number of its bytes when the data pointer is
/// not null, and the reported length otherwise; the bytes that can be read are
/// the payload's bytes, or none behind a null pointer.
pub proof fn lemma_payload_len(p: Payload)
    ensures
        p matches Payload::Present(bytes) ==> payload_len(p) == bytes@.len() && payload_bytes(p)
            == bytes@ && payload_len(p) == payload_bytes(p).len(),
        p matches Payload::Absent { reported_len } ==> payload_len(p) == reported_len
            && payload_bytes(p).len() == 0,
{
}

/// A header field reads as the whole C string at the start of its buffer: a
/// text handed over as its UTF-8 bytes and a NUL byte (followed by anything)
/// reads back as that text, whatever its length; a null pointer reads as empty.
pub proof fn lemma_field_reads_whole_c_string(text: Seq<char>, rest: Seq<u8>)
    requires
        nul_free(encode_utf8(text)),
    ensures
        field_text(Some(encode_utf8(text).push(0) + rest)) == text,
        field_text(None) == Seq::<char>::empty(),
{
    let bytes = encode_utf8(text);
    let raw = bytes.push(0) + rest;
    lemma_c_str_len(raw);
    assert forall|j: int| 0 <= j < bytes.len() implies raw[j] != 0 by {
        assert(raw[j] == bytes[j]);
    }
    assert(raw[bytes.len() as int] == 0);
    if c_str_len(raw) < bytes.len() {
        assert(raw[c_str_len(raw) as int] == bytes[c_str_len(raw) as int]);
    }
    assert(c_str_len(raw) == bytes.len());
    assert(raw.take(bytes.len() as int) =~= bytes);
    encode_utf8_valid_utf8(text);
    encode_utf8_decode_utf8(text);
}

/// The topic and command of a message read as the whole C strings of their
/// fields: a field holding a text's UTF-8 bytes and a NUL byte reads as that text.
pub proof fn lemma_topic_and_command(m: &Message, text: Seq<char>, rest: Seq<u8>)
    requires
        nul_free(encode_utf8(text)),
    ensures
        raw_bytes(m.raw_topic) == Some(encode_utf8(text).push(0) + rest) ==> m.topic_text() == text,
        raw_bytes(m.raw_command) == Some(encode_utf8(text).push(0) + rest) ==> m.command_text()
            == text,
        m.raw_topic is None ==> m.topic_text() == Seq::<char>::empty(),
        m.raw_command is None ==> m.command_text() == Seq::<char>::empty(),
{
    lemma_field_reads_whole_c_string(text, rest);
}

/// A message is at most one of: a group begin marker, a group end marker, a
/// SOW delete notification.
pub proof fn lemma_markers_exclusive(m: &Message)
    ensures
        !(m.command_text() == "group_begin"@ && m.command_text() == "group_end"@),
        !(m.command_text() == "group_begin"@ && m.command_text() == "sow_delete"@),
        !(m.command_text() == "group_end"@ && m.command_text() == "sow_delete"@),
{
    reveal_strlit("group_begin");
    reveal_strlit("group_end");
    reveal_strlit("sow_delete");
    assert("group_begin"@[6] != "group_end"@[6]);
    assert("group_begin"@.len() != "sow_delete"@.len());
    assert("group_end"@.len() != "sow_delete"@.len());
}

/// The text that `data` gives is the payload itself: whenever it is not empty,
/// its UTF-8 bytes are exactly the payload bytes, and the message has data.
pub proof fn lemma_data_is_payload(m: &Message)
    ensures
        utf8_or_empty(payload_bytes(m.payload)).len() > 0 ==> encode_utf8(
            utf8_or_empty(payload_bytes(m.payload)),
        ) == payload_bytes(m.payload) && payload_len(m.payload) > 0,
{
    if utf8_or_empty(payload_bytes(m.payload)).len() > 0 {
        decode_utf8_encode_utf8(payload_bytes(m.payload));
    }
}

/// A message without data has no data bytes and an empty data text; the bytes
/// that can be read are never more than the reported length.
pub proof fn lemma_no_data_is_empty(m: &Message)
    ensures
        payload_bytes(m.payload).len() <= payload_len(m.payload),
        payload_len(m.payload) == 0 ==> payload_bytes(m.payload).len() == 0 && utf8_or_empty(
            payload_bytes(m.payload),
        ).len() == 0,
{
    assert(utf8_or_empty(seq![]) =~= seq![]);
    if payload_len(m.payload) == 0 {
        assert(payload_bytes(m.payload) =~= seq![]);
    }
}

} // verus!
