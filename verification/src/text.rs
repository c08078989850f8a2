//! Byte and text helpers shared by the error, message and call modules:
//! C-string prefixes, UTF-8 decoding and decimal rendering.
use vstd::prelude::*;
use vstd::string::*;
use vstd::utf8::*;

verus! {

/// Number of bytes before the first NUL byte of `bytes` (all of them when there is none).
/// This is the length of the C string that starts at the first byte.
pub open spec fn c_str_len(bytes: Seq<u8>) -> nat
    decreases bytes.len(),
{
    if bytes.len() == 0 || bytes[0] == 0 {
        0
    } else {
        1 + c_str_len(bytes.drop_first())
    }
}

/// The bytes of the C string at the start of `bytes`: everything before the first NUL.
pub open spec fn c_str_bytes(bytes: Seq<u8>) -> Seq<u8> {
    bytes.take(c_str_len(bytes) as int)
}

/// `bytes` holds no NUL byte.
pub open spec fn nul_free(bytes: Seq<u8>) -> bool {
    forall|i: int| 0 <= i < bytes.len() ==> bytes[i] != 0
}

/// `c_str_len` is the index of the first NUL byte, or the length when there is none.
pub proof fn lemma_c_str_len(bytes: Seq<u8>)
    ensures
        c_str_len(bytes) <= bytes.len(),
        forall|j: int| 0 <= j < c_str_len(bytes) ==> bytes[j] != 0,
        c_str_len(bytes) < bytes.len() ==> bytes[c_str_len(bytes) as int] == 0,
        nul_free(bytes) <==> c_str_len(bytes) == bytes.len(),
    decreases bytes.len(),
{
    if bytes.len() > 0 && bytes[0] != 0 {
        let rest = bytes.drop_first();
        lemma_c_str_len(rest);
        assert forall|j: int| 0 <= j < c_str_len(bytes) implies bytes[j] != 0 by {
            if j > 0 {
                assert(bytes[j] == rest[j - 1]);
            }
        }
        if nul_free(bytes) {
            assert forall|i: int| 0 <= i < rest.len() implies rest[i] != 0 by {
                assert(rest[i] == bytes[i + 1]);
            }
        }
        if c_str_len(bytes) == bytes.len() {
            assert forall|i: int| 0 <= i < bytes.len() implies bytes[i] != 0 by {
                if i > 0 {
                    assert(bytes[i] == rest[i - 1]);
                }
            }
        }
    } else if bytes.len() > 0 {
        assert(bytes[0] == 0);
    }
}

/// Finds the length of the C string at the start of `bytes`.
pub fn c_str_length(bytes: &[u8]) -> (n: usize)
    ensures
        n == c_str_len(bytes@),
{
    let mut i: usize = 0;
    while i < bytes.len() && bytes[i] != 0
        invariant
            i <= bytes@.len(),
            forall|j: int| 0 <= j < i ==> bytes@[j] != 0,
        decreases bytes@.len() - i,
    {
        i = i + 1;
    }
    proof {
        lemma_c_str_len_unique(bytes@, i as nat);
    }
    i
}

/// Any index `n` that has no NUL before it, and a NUL (or the end) at it, is `c_str_len`.
proof fn lemma_c_str_len_unique(bytes: Seq<u8>, n: nat)
    requires
        n <= bytes.len(),
        forall|j: int| 0 <= j < n ==> bytes[j] != 0,
        n < bytes.len() ==> bytes[n as int] == 0,
    ensures
        c_str_len(bytes) == n,
    decreases bytes.len(),
{
    if n > 0 {
        let rest = bytes.drop_first();
        assert forall|j: int| 0 <= j < (n - 1) as nat implies rest[j] != 0 by {
            assert(rest[j] == bytes[j + 1]);
        }
        if (n - 1) < rest.len() {
            assert(rest[(n - 1) as int] == bytes[n as int]);
        }
        lemma_c_str_len_unique(rest, (n - 1) as nat);
    }
}

/// The text that `String::from_utf8_lossy` makes of `bytes`: the decoded characters,
/// with each invalid sequence replaced by U+FFFD.
pub uninterp spec fn utf8_lossy(bytes: Seq<u8>) -> Seq<char>;

/// Calls `String::from_utf8_lossy` and takes the owned string.
/// Claims that the result is `utf8_lossy` of the bytes, and, as std documents,
/// that valid UTF-8 comes back decoded unchanged.  What replaces invalid
/// sequences is left to the name.
#[verifier::external_body]
pub(crate) fn decode_utf8_lossy(bytes: &[u8]) -> (s: String)
    ensures
        s@ == utf8_lossy(bytes@),
        valid_utf8(bytes@) ==> s@ == decode_utf8(bytes@),
{
    String::from_utf8_lossy(bytes).into_owned()
}

/// Calls `std::str::from_utf8`.
/// Claims what std documents: it succeeds exactly on valid UTF-8, and the string
/// it gives back is made of the same bytes.
#[verifier::external_body]
pub(crate) fn str_from_utf8(bytes: &[u8]) -> (r: Option<&str>)
    ensures
        r is Some <==> valid_utf8(bytes@),
        r matches Some(s) ==> s.spec_bytes() == bytes@,
{
    std::str::from_utf8(bytes).ok()
}

/// The text that `Debug` writes for a string: the string in double quotes,
/// with its characters escaped as `char::escape_debug` escapes them.
pub uninterp spec fn debug_quoted(s: Seq<char>) -> Seq<char>;

/// Formats a string with `Debug` (`format!("{:?}", s)`).  Claims only that the
/// result is `debug_quoted` of the text; the escapes are left to the name.
#[verifier::external_body]
pub(crate) fn str_debug(s: &str) -> (d: String)
    ensures
        d@ == debug_quoted(s@),
{
    format!("{:?}", s)
}

/// The text a strict UTF-8 reader makes of `bytes`: the decoded characters, or
/// the empty text when the bytes are not valid UTF-8.
pub open spec fn utf8_or_empty(bytes: Seq<u8>) -> Seq<char> {
    if valid_utf8(bytes) {
        decode_utf8(bytes)
    } else {
        seq![]
    }
}

/// Strict reading gives back exactly the characters whose UTF-8 bytes were
/// read, and nothing when the bytes are not valid UTF-8.
pub proof fn lemma_utf8_or_empty(bytes: Seq<u8>)
    ensures
        valid_utf8(bytes) ==> encode_utf8(utf8_or_empty(bytes)) == bytes,
        !valid_utf8(bytes) ==> utf8_or_empty(bytes).len() == 0,
        forall|text: Seq<char>| #[trigger] utf8_or_empty(encode_utf8(text)) == text,
{
    if valid_utf8(bytes) {
        vstd::utf8::decode_utf8_encode_utf8(bytes);
    }
    assert forall|text: Seq<char>| #[trigger] utf8_or_empty(encode_utf8(text)) == text by {
        vstd::utf8::encode_utf8_valid_utf8(text);
        vstd::utf8::encode_utf8_decode_utf8(text);
    }
}

/// Reads `bytes` as UTF-8, giving the empty string when they are not valid UTF-8.
pub fn utf8_str_or_empty(bytes: &[u8]) -> (s: &str)
    ensures
        s@ == utf8_or_empty(bytes@),
{
    match str_from_utf8(bytes) {
        Some(s) => {
            proof {
                vstd::utf8::encode_utf8_decode_utf8(s@);
            }
            s
        },
        None => {
            let e = "";
            proof {
                reveal_strlit("");
            }
            e
        },
    }
}

/// Compares two strings character by character.
pub fn str_eq(a: &str, b: &str) -> (r: bool)
    ensures
        r == (a@ == b@),
{
    let x = a.as_bytes();
    let y = b.as_bytes();
    proof {
        vstd::utf8::encode_utf8_decode_utf8(a@);
        vstd::utf8::encode_utf8_decode_utf8(b@);
    }
    if x.len() != y.len() {
        return false;
    }
    let mut i: usize = 0;
    while i < x.len()
        invariant
            x@ == a.spec_bytes(),
            y@ == b.spec_bytes(),
            x@.len() == y@.len(),
            i <= x@.len(),
            forall|j: int| 0 <= j < i ==> x@[j] == y@[j],
        decreases x@.len() - i,
    {
        if x[i] != y[i] {
            return false;
        }
        i = i + 1;
    }
    assert(x@ =~= y@);
    true
}

/// The decimal digit character for `d` (`d` below ten).
pub open spec fn digit_char(d: nat) -> char {
    seq!['0', '1', '2', '3', '4', '5', '6', '7', '8', '9'][d as int]
}

/// The decimal rendering of `n`, most significant digit first, with no leading zeros.
pub open spec fn decimal(n: nat) -> Seq<char>
    decreases n,
{
    if n < 10 {
        seq![digit_char(n)]
    } else {
        decimal(n / 10).push(digit_char(n % 10))
    }
}

/// The number a string of decimal digits stands for.
pub open spec fn digits_value(s: Seq<char>) -> int
    decreases s.len(),
{
    if s.len() == 0 {
        0
    } else {
        digits_value(s.drop_last()) * 10 + (s.last() as int - '0' as int)
    }
}

/// The decimal rendering of `n` is a non-empty string of the digits `0` to
/// `9`, without a leading zero (but for zero itself), that stands for `n`.
pub proof fn lemma_decimal(n: nat)
    ensures
        decimal(n).len() > 0,
        forall|i: int| 0 <= i < decimal(n).len() ==> '0' <= #[trigger] decimal(n)[i] <= '9',
        decimal(n)[0] == '0' ==> n == 0,
        digits_value(decimal(n)) == n,
    decreases n,
{
    let d = n % 10;
    assert(digit_char(d) as int == '0' as int + d) by {
        assert(seq!['0', '1', '2', '3', '4', '5', '6', '7', '8', '9'][d as int] as int == '0' as int
            + d);
    }
    if n >= 10 {
        lemma_decimal(n / 10);
        let prefix = decimal(n / 10);
        assert(decimal(n) == prefix.push(digit_char(d)));
        assert(decimal(n).drop_last() =~= prefix);
        assert forall|i: int| 0 <= i < decimal(n).len() implies '0' <= #[trigger] decimal(n)[i]
            <= '9' by {
            if i < prefix.len() {
                assert(decimal(n)[i] == prefix[i]);
            }
        }
        assert(decimal(n)[0] == prefix[0]);
        assert(decimal(n).last() == digit_char(d));
        assert(digits_value(decimal(n)) == digits_value(prefix) * 10 + (digit_char(d) as int
            - '0' as int));
        assert((n / 10) * 10 + n % 10 == n) by (nonlinear_arith);
    } else {
        assert(d == n);
        assert(decimal(n) == seq![digit_char(n)]);
        assert(decimal(n).drop_last() =~= Seq::<char>::empty());
        assert(decimal(n).last() == digit_char(d));
        assert(digits_value(decimal(n)) == digits_value(Seq::<char>::empty()) * 10 + (digit_char(
            d,
        ) as int - '0' as int));
    }
}

/// The one-character string of the digit `d`.
fn digit_str(d: u64) -> (s: &'static str)
    requires
        d < 10,
    ensures
        s@ == seq![digit_char(d as nat)],
{
    proof {
        reveal_strlit("0");
        reveal_strlit("1");
        reveal_strlit("2");
        reveal_strlit("3");
        reveal_strlit("4");
        reveal_strlit("5");
        reveal_strlit("6");
        reveal_strlit("7");
        reveal_strlit("8");
        reveal_strlit("9");
    }
    if d == 0 {
        "0"
    } else if d == 1 {
        "1"
    } else if d == 2 {
        "2"
    } else if d == 3 {
        "3"
    } else if d == 4 {
        "4"
    } else if d == 5 {
        "5"
    } else if d == 6 {
        "6"
    } else if d == 7 {
        "7"
    } else if d == 8 {
        "8"
    } else {
        "9"
    }
}

/// Appends the decimal rendering of `n` to `out`.
pub fn push_decimal(out: &mut String, n: u64)
    ensures
        final(out)@ == old(out)@ + decimal(n as nat),
    decreases n,
{
    if n >= 10 {
        push_decimal(out, n / 10);
    }
    let d = digit_str(n % 10);
    out.append(d);
    assert(decimal(n as nat) =~= if n < 10 {
        seq![digit_char(n as nat)]
    } else {
        decimal((n / 10) as nat).push(digit_char((n % 10) as nat))
    });
}

} // verus!
