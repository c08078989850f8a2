//! What the client decides around each call into the C layer: the C strings it
//! hands over, and the result it makes of what the call reports.
//!
//! The client type itself holds the C layer's handle and makes the calls; it
//! stands in the `app/` crate and uses these functions on both sides of each call.
use vstd::prelude::*;
use vstd::string::*;
use vstd::utf8::{encode_utf8, encode_utf8_decode_utf8, encode_utf8_valid_utf8};

use crate::error::{
    error_of_info, message_kind, AmpsError, AmpsResult, ErrorInfo, ErrorKind, NulError,
    AMPS_FFI_ERROR_NULL_POINTER, AMPS_FFI_OK,
};
use crate::message::{field_text, raw_bytes};
use crate::text::{
    c_str_bytes, c_str_len, c_str_length, decimal, digits_value, lemma_c_str_len, lemma_decimal,
    nul_free,
};

verus! {

/// Converts `s` to a C string: its bytes followed by one NUL byte.  Fails,
/// as `CString::new` does, when `s` holds a NUL byte, giving the first one's position.
pub fn c_string(s: &str) -> (r: Result<Vec<u8>, NulError>)
    ensures
        r is Ok <==> nul_free(s.spec_bytes()),
        r matches Ok(c) ==> c@ == s.spec_bytes().push(0),
        r matches Err(e) ==> e.position == c_str_len(s.spec_bytes()),
{
    let bytes = s.as_bytes();
    let n = c_str_length(bytes);
    proof {
        lemma_c_str_len(bytes@);
    }
    if n < bytes.len() {
        return Err(NulError { position: n });
    }
    let mut c: Vec<u8> = Vec::new();
    let mut i: usize = 0;
    while i < bytes.len()
        invariant
            i <= bytes@.len(),
            c@ == bytes@.take(i as int),
        decreases bytes@.len() - i,
    {
        c.push(bytes[i]);
        i = i + 1;
        assert(c@ =~= bytes@.take(i as int));
    }
    c.push(0u8);
    assert(bytes@.take(bytes@.len() as int) =~= bytes@);
    Ok(c)
}

/// Converts an optional string to an optional C string, failing as `c_string`
/// does on the string when there is one.
pub fn optional_c_string(s: Option<&str>) -> (r: Result<Option<Vec<u8>>, NulError>)
    ensures
        s is None ==> r == Ok::<Option<Vec<u8>>, NulError>(None),
        s matches Some(t) ==> (r is Ok <==> nul_free(t.spec_bytes())),
        s matches Some(t) ==> (r matches Ok(c) ==> c matches Some(c) && c@ == t.spec_bytes().push(0)),
        s matches Some(t) ==> (r matches Err(e) ==> e.position == c_str_len(t.spec_bytes())),
{
    match s {
        Some(t) => match c_string(t) {
            Ok(c) => Ok(Some(c)),
            Err(e) => Err(e),
        },
        None => Ok(None),
    }
}

/// The C string an optional string converts to, if any.
pub open spec fn opt_c_string_of(s: Option<&str>) -> Option<Seq<u8>> {
    match s {
        Some(t) => Some(t.spec_bytes().push(0)),
        None => None,
    }
}

/// An optional string converts to a C string: it is absent or holds no NUL byte.
pub open spec fn opt_nul_free(s: Option<&str>) -> bool {
    match s {
        Some(t) => nul_free(t.spec_bytes()),
        None => true,
    }
}

/// Converts the string arguments of a call that registers a message handler
/// (subscribe, SOW query, SOW and subscribe): the topic, then the filter, then
/// the last optional argument (subscription options or ordering), stopping at
/// the first that holds a NUL byte.
pub fn handler_call_args(topic: &str, filter: Option<&str>, extra: Option<&str>) -> (r: Result<
    (Vec<u8>, Option<Vec<u8>>, Option<Vec<u8>>),
    NulError,
>)
    ensures
        r is Ok <==> nul_free(topic.spec_bytes()) && opt_nul_free(filter) && opt_nul_free(extra),
        r matches Ok((t, f, e)) ==> {
            &&& t@ == topic.spec_bytes().push(0)
            &&& raw_bytes(f) == opt_c_string_of(filter)
            &&& raw_bytes(e) == opt_c_string_of(extra)
        },
        r matches Ok((t, f, e)) ==> {
            &&& (f is Some <==> filter is Some)
            &&& (e is Some <==> extra is Some)
            &&& (f matches Some(fv) ==> fv@ == filter->0.spec_bytes().push(0))
            &&& (e matches Some(ev) ==> ev@ == extra->0.spec_bytes().push(0))
        },
        r matches Err(err) ==> err.position == (if !nul_free(topic.spec_bytes()) {
            c_str_len(topic.spec_bytes())
        } else if !opt_nul_free(filter) {
            c_str_len(filter->0.spec_bytes())
        } else {
            c_str_len(extra->0.spec_bytes())
        }),
{
    let t = match c_string(topic) {
        Ok(t) => t,
        Err(e) => return Err(e),
    };
    let f = match optional_c_string(filter) {
        Ok(f) => f,
        Err(e) => return Err(e),
    };
    let x = match optional_c_string(extra) {
        Ok(x) => x,
        Err(e) => return Err(e),
    };
    Ok((t, f, x))
}

/// An optional argument converts to a C string exactly when it is present, and
/// that C string is the argument's bytes with one NUL byte added at the end;
/// read back as a C string it is the argument again.  It converts without
/// error exactly when it is absent or none of its bytes is NUL.
pub proof fn lemma_optional_argument(s: Option<&str>)
    ensures
        opt_c_string_of(s) is Some <==> s is Some,
        s matches Some(t) ==> opt_c_string_of(s)->0.len() == t.spec_bytes().len() + 1,
        s matches Some(t) ==> opt_c_string_of(s)->0.last() == 0u8,
        s matches Some(t) ==> opt_c_string_of(s)->0.drop_last() == t.spec_bytes(),
        s matches Some(t) ==> (opt_nul_free(s) ==> c_str_bytes(opt_c_string_of(s)->0) == t.spec_bytes()),
        opt_nul_free(s) <==> (s matches Some(t) ==> forall|i: int|
            0 <= i < t.spec_bytes().len() ==> t.spec_bytes()[i] != 0u8),
{
    if let Some(t) = s {
        let b = t.spec_bytes();
        assert(b.push(0).drop_last() =~= b);
        if nul_free(b) {
            let c = b.push(0);
            lemma_c_str_len(c);
            assert forall|j: int| 0 <= j < b.len() implies c[j] != 0 by {
                assert(c[j] == b[j]);
            }
            assert(c[b.len() as int] == 0);
            if c_str_len(c) < b.len() {
                assert(c[c_str_len(c) as int] == b[c_str_len(c) as int]);
            }
            assert(c_str_len(c) == b.len());
            assert(c.take(b.len() as int) =~= b);
        }
    }
}

/// The result of a call that reports a status code: success on `AMPS_FFI_OK`,
/// otherwise the error that the error record stands for.
pub fn status_result(status: u32, error_info: ErrorInfo) -> (r: AmpsResult<()>)
    ensures
        r is Ok <==> status == AMPS_FFI_OK,
        r matches Err(e) ==> e@ == error_of_info(error_info.code, error_info.message@),
{
    if status != AMPS_FFI_OK {
        return Err(AmpsError::from(error_info));
    }
    Ok(())
}

/// The result of creating a client: success when the C layer gave a handle
/// (not a null pointer), otherwise the error that the error record stands for.
pub fn create_result(handle_is_null: bool, error_info: ErrorInfo) -> (r: AmpsResult<()>)
    ensures
        r is Ok <==> !handle_is_null,
        r matches Err(e) ==> e@ == error_of_info(error_info.code, error_info.message@),
{
    if handle_is_null {
        return Err(AmpsError::from(error_info));
    }
    Ok(())
}

/// The result of a publish: the sequence number, unless the error record's
/// code reports an error, in which case the error it stands for.
pub fn publish_result(sequence: u64, error_info: ErrorInfo) -> (r: AmpsResult<u64>)
    ensures
        r is Ok <==> error_info.code == AMPS_FFI_OK,
        r matches Ok(n) ==> n == sequence,
        r matches Err(e) ==> e@ == error_of_info(error_info.code, error_info.message@),
{
    if error_info.code != AMPS_FFI_OK {
        return Err(AmpsError::from(error_info));
    }
    Ok(sequence)
}

/// The result of a delta publish: a zero return value means failure, with the
/// error that the error record stands for.
pub fn delta_publish_result(returned: u64, error_info: ErrorInfo) -> (r: AmpsResult<()>)
    ensures
        r is Ok <==> returned != 0,
        r matches Err(e) ==> e@ == error_of_info(error_info.code, error_info.message@),
{
    if returned == 0 {
        return Err(AmpsError::from(error_info));
    }
    Ok(())
}

/// The result of setting the heartbeat: that call fills in no error record, so
/// any status but `AMPS_FFI_OK` becomes `NullPointer`.
pub fn heartbeat_result(status: u32) -> (r: AmpsResult<()>)
    ensures
        r is Ok <==> status == AMPS_FFI_OK,
        r matches Err(e) ==> e@ == (ErrorKind::NullPointer, Seq::<char>::empty()),
{
    if status != AMPS_FFI_OK {
        return Err(AmpsError::NullPointer);
    }
    Ok(())
}

/// A text handed to the C layer as a C string reads back as the same text:
/// the C string at the start of its bytes (followed by anything) decodes to it.
pub proof fn lemma_c_string_round_trip(text: Seq<char>, rest: Seq<u8>)
    requires
        nul_free(encode_utf8(text)),
    ensures
        c_str_bytes(encode_utf8(text).push(0) + rest) == encode_utf8(text),
        field_text(Some(encode_utf8(text).push(0) + rest)) == text,
{
    let bytes = encode_utf8(text);
    let raw = bytes.push(0) + rest;
    lemma_c_str_len(raw);
    assert forall|j: int| 0 <= j < bytes.len() implies raw[j] != 0 by {
        assert(raw[j] == bytes[j]);
    }
    assert(raw[bytes.len() as int] == 0);
    if c_str_len(raw) < bytes.len() {
        assert(raw[c_str_len(raw) as int] == bytes[c_str_len(raw) as int]);
    }
    assert(c_str_len(raw) == bytes.len());
    assert(raw.take(bytes.len() as int) =~= bytes);
    encode_utf8_valid_utf8(text);
    encode_utf8_decode_utf8(text);
}

/// An error reported by the C layer keeps its message: when the error record
/// holds a code that carries a message and, at the start of its buffer, the C
/// string of some text, the error is that code's variant with that text.
pub proof fn lemma_error_message_kept(code: u32, text: Seq<char>, rest: Seq<u8>)
    requires
        message_kind(code) is Some,
        nul_free(encode_utf8(text)),
    ensures
        error_of_info(code, encode_utf8(text).push(0) + rest) == (message_kind(code)->0, text),
{
    lemma_c_string_round_trip(text, rest);
    encode_utf8_valid_utf8(text);
    encode_utf8_decode_utf8(text);
}

/// An error record with a code the library does not know becomes `Unknown`
/// with a message that names the code in decimal and keeps the record's text.
pub proof fn lemma_unknown_code_kept(code: u32, text: Seq<char>, rest: Seq<u8>)
    requires
        message_kind(code) is None,
        code != AMPS_FFI_OK,
        code != AMPS_FFI_ERROR_NULL_POINTER,
        nul_free(encode_utf8(text)),
    ensures
        error_of_info(code, encode_utf8(text).push(0) + rest).0 == ErrorKind::Unknown,
        error_of_info(code, encode_utf8(text).push(0) + rest).1 == "Unknown error code "@ + decimal(
            code as nat,
        ) + ": "@ + text,
        digits_value(decimal(code as nat)) == code,
{
    lemma_c_string_round_trip(text, rest);
    encode_utf8_valid_utf8(text);
    encode_utf8_decode_utf8(text);
    lemma_decimal(code as nat);
}

} // verus!
