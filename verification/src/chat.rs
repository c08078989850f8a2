//! The chat over an AMPS topic: what it decides between the terminal and the
//! client.  Each line typed becomes a JSON message `{"sender", "text"}` on a
//! shared topic; each user subscribes with a server-side filter that keeps
//! their own messages away, and prints the others as `sender: text`.
use vstd::prelude::*;
use vstd::string::*;

use crate::message::{payload_bytes, payload_len, Message};
use crate::subscription::opt_text;
use crate::text::utf8_or_empty;

verus! {

/// The server the chat connects to unless told otherwise.
pub const DEFAULT_URI: &'static str = "tcp://localhost:9007/amps/json";

/// The topic the chat uses unless told otherwise.
pub const DEFAULT_TOPIC: &'static str = "chat";

/// The member under which a chat message carries its sender's name.
pub const SENDER_KEY: &'static str = "sender";

/// The member under which a chat message carries its text.
pub const TEXT_KEY: &'static str = "text";

/// What `serde_json` makes of a text and two member names: `None` when the
/// text is not JSON, otherwise each member's value where it is a string.
pub uninterp spec fn json_str_members(data: Seq<char>, first: Seq<char>, second: Seq<char>) -> Option<
    (Option<Seq<char>>, Option<Seq<char>>),
>;

/// Parses `data` with `serde_json::from_str` into a `serde_json::Value` and
/// takes the members `first` and `second` with `as_str`.  Claims only that the
/// result is `json_str_members` of the three texts; what JSON it accepts is
/// left to the name.
#[verifier::external_body]
pub fn parse_json_str_members(data: &str, first: &str, second: &str) -> (r: Option<
    (Option<String>, Option<String>),
>)
    ensures
        match r {
            Some((a, b)) => json_str_members(data@, first@, second@) == Some(
                (opt_text(a), opt_text(b)),
            ),
            None => json_str_members(data@, first@, second@) is None,
        },
{
    serde_json::from_str::<serde_json::Value>(data).ok().map(
        |v| (v[first].as_str().map(String::from), v[second].as_str().map(String::from)),
    )
}

/// The JSON text that `serde_json` writes for an object of two string members.
pub uninterp spec fn json_two_members(
    first: Seq<char>,
    first_value: Seq<char>,
    second: Seq<char>,
    second_value: Seq<char>,
) -> Seq<char>;

/// Builds a `serde_json::Map` of the two string members, wraps it in a
/// `serde_json::Value` and renders it with its `Display`.  Claims that the
/// result is `json_two_members` of the four texts and, as serde_json's writer
/// and reader show, that reading the two members back from it (when their
/// names differ) gives the two values.
#[verifier::external_body]
pub fn json_object_two_strs(first: &str, first_value: &str, second: &str, second_value: &str) -> (s:
    String)
    ensures
        s@ == json_two_members(first@, first_value@, second@, second_value@),
        first@ != second@ ==> json_str_members(s@, first@, second@) == Some(
            (Some(first_value@), Some(second_value@)),
        ),
{
    let mut fields = serde_json::Map::new();
    fields.insert(first.to_string(), serde_json::Value::from(first_value));
    fields.insert(second.to_string(), serde_json::Value::from(second_value));
    serde_json::Value::Object(fields).to_string()
}

/// Unicode white space, as `char::is_whitespace` and `str::trim` take it: the
/// characters with the `White_Space` property.
pub open spec fn white_space(c: char) -> bool {
    let u = c as u32;
    ||| 0x09 <= u <= 0x0d
    ||| u == 0x20
    ||| u == 0x85
    ||| u == 0xa0
    ||| u == 0x1680
    ||| 0x2000 <= u <= 0x200a
    ||| u == 0x2028
    ||| u == 0x2029
    ||| u == 0x202f
    ||| u == 0x205f
    ||| u == 0x3000
}

/// Whether `c` is Unicode white space.
pub fn is_white_space(c: char) -> (b: bool)
    ensures
        b == white_space(c),
{
    let u = c as u32;
    (0x09 <= u && u <= 0x0d) || u == 0x20 || u == 0x85 || u == 0xa0 || u == 0x1680 || (0x2000 <= u
        && u <= 0x200a) || u == 0x2028 || u == 0x2029 || u == 0x202f || u == 0x205f || u == 0x3000
}

/// Number of white-space characters at the start of `s`.
pub open spec fn leading_white(s: Seq<char>) -> nat
    decreases s.len(),
{
    if s.len() > 0 && white_space(s[0]) {
        1 + leading_white(s.drop_first())
    } else {
        0
    }
}

/// Number of white-space characters at the end of `s`.
pub open spec fn trailing_white(s: Seq<char>) -> nat
    decreases s.len(),
{
    if s.len() > 0 && white_space(s.last()) {
        1 + trailing_white(s.drop_last())
    } else {
        0
    }
}

/// `s` without its leading and then its trailing white space.
pub open spec fn trimmed(s: Seq<char>) -> Seq<char> {
    let rest = s.skip(leading_white(s) as int);
    rest.take(rest.len() - trailing_white(rest))
}

/// Trimming keeps a contiguous part of the text and removes only white space:
/// the text is some white space, then the trimmed text, then some white space;
/// the trimmed text neither starts nor ends with white space; and it is empty
/// exactly when the whole text is white space.
pub proof fn lemma_trimmed(s: Seq<char>)
    ensures
        leading_white(s) + trimmed(s).len() <= s.len(),
        trimmed(s) == s.subrange(leading_white(s) as int, (leading_white(s) + trimmed(s).len()) as int),
        forall|k: int| 0 <= k < leading_white(s) ==> white_space(#[trigger] s[k]),
        forall|k: int|
            leading_white(s) + trimmed(s).len() <= k < s.len() ==> white_space(#[trigger] s[k]),
        trimmed(s).len() > 0 ==> !white_space(trimmed(s)[0]) && !white_space(trimmed(s).last()),
        trimmed(s).len() == 0 <==> forall|k: int| 0 <= k < s.len() ==> white_space(#[trigger] s[k]),
{
    lemma_leading_white_props(s);
    let l = leading_white(s);
    let rest = s.skip(l as int);
    lemma_trailing_white_props(rest);
    let tr = trailing_white(rest);
    let t = trimmed(s);
    assert(t =~= s.subrange(l as int, (l + t.len()) as int));
    assert forall|k: int| l + t.len() <= k < s.len() implies white_space(#[trigger] s[k]) by {
        assert(s[k] == rest[k - l]);
    }
    if t.len() > 0 {
        assert(t[0] == rest[0]);
        assert(t.last() == rest[rest.len() - 1 - tr]);
    }
    if t.len() == 0 {
        assert forall|k: int| 0 <= k < s.len() implies white_space(#[trigger] s[k]) by {
            if k >= l {
                assert(s[k] == rest[k - l]);
            }
        }
    } else {
        assert(s[l as int] == t[0]);
    }
}

/// `leading_white` counts white space at the start, up to the first other character.
proof fn lemma_leading_white_props(s: Seq<char>)
    ensures
        leading_white(s) <= s.len(),
        forall|k: int| 0 <= k < leading_white(s) ==> white_space(#[trigger] s[k]),
        leading_white(s) < s.len() ==> !white_space(s[leading_white(s) as int]),
    decreases s.len(),
{
    if s.len() > 0 && white_space(s[0]) {
        let rest = s.drop_first();
        lemma_leading_white_props(rest);
        assert forall|k: int| 0 <= k < leading_white(s) implies white_space(#[trigger] s[k]) by {
            if k > 0 {
                assert(s[k] == rest[k - 1]);
            }
        }
        if leading_white(s) < s.len() {
            assert(s[leading_white(s) as int] == rest[leading_white(rest) as int]);
        }
    }
}

/// `trailing_white` counts white space at the end, back to the last other character.
proof fn lemma_trailing_white_props(s: Seq<char>)
    ensures
        trailing_white(s) <= s.len(),
        forall|k: int| s.len() - trailing_white(s) <= k < s.len() ==> white_space(#[trigger] s[k]),
        trailing_white(s) < s.len() ==> !white_space(s[s.len() - 1 - trailing_white(s)]),
    decreases s.len(),
{
    if s.len() > 0 && white_space(s.last()) {
        let rest = s.drop_last();
        lemma_trailing_white_props(rest);
        assert forall|k: int| s.len() - trailing_white(s) <= k < s.len() implies white_space(
            #[trigger] s[k],
        ) by {
            if k < s.len() - 1 {
                assert(s[k] == rest[k]);
            }
        }
        if trailing_white(s) < s.len() {
            assert(s[s.len() - 1 - trailing_white(s)] == rest[rest.len() - 1 - trailing_white(rest)]);
        }
    }
}

/// Any count of white space before a non-white character (or the end) is `leading_white`.
proof fn lemma_leading_white(s: Seq<char>, n: nat)
    requires
        n <= s.len(),
        forall|k: int| 0 <= k < n ==> white_space(#[trigger] s[k]),
        n < s.len() ==> !white_space(s[n as int]),
    ensures
        leading_white(s) == n,
    decreases n,
{
    if n > 0 {
        let rest = s.drop_first();
        assert forall|k: int| 0 <= k < (n - 1) as nat implies white_space(#[trigger] rest[k]) by {
            assert(rest[k] == s[k + 1]);
        }
        if (n - 1) < rest.len() {
            assert(rest[(n - 1) as int] == s[n as int]);
        }
        lemma_leading_white(rest, (n - 1) as nat);
    }
}

/// Any count of white space after a non-white character (or the start) is `trailing_white`.
proof fn lemma_trailing_white(s: Seq<char>, n: nat)
    requires
        n <= s.len(),
        forall|k: int| s.len() - n <= k < s.len() ==> white_space(#[trigger] s[k]),
        n < s.len() ==> !white_space(s[s.len() - 1 - n]),
    ensures
        trailing_white(s) == n,
    decreases n,
{
    if n > 0 {
        let rest = s.drop_last();
        assert(white_space(s.last()));
        assert forall|k: int| rest.len() - (n - 1) as nat <= k < rest.len() implies white_space(
            #[trigger] rest[k],
        ) by {
            assert(rest[k] == s[k]);
        }
        if (n - 1) < rest.len() {
            assert(rest[rest.len() - 1 - (n - 1)] == s[s.len() - 1 - n]);
        }
        lemma_trailing_white(rest, (n - 1) as nat);
    }
}

/// Removes leading and trailing white space, as `str::trim` does.
pub fn trim(s: &str) -> (t: &str)
    ensures
        t@ == trimmed(s@),
{
    let n = s.unicode_len();
    let mut i: usize = 0;
    while i < n && is_white_space(s.get_char(i))
        invariant
            i <= n,
            n == s@.len(),
            forall|k: int| 0 <= k < i ==> white_space(#[trigger] s@[k]),
        decreases n - i,
    {
        i = i + 1;
    }
    let mut j: usize = n;
    while j > i && is_white_space(s.get_char(j - 1))
        invariant
            i <= j <= n,
            n == s@.len(),
            forall|k: int| j <= k < n ==> white_space(#[trigger] s@[k]),
        decreases j,
    {
        j = j - 1;
    }
    proof {
        lemma_leading_white(s@, i as nat);
        let rest = s@.skip(i as int);
        assert forall|k: int| rest.len() - (n - j) as nat <= k < rest.len() implies white_space(
            #[trigger] rest[k],
        ) by {
            assert(rest[k] == s@[k + i]);
        }
        if (n - j) < rest.len() {
            assert(rest[rest.len() - 1 - (n - j)] == s@[j - 1]);
        }
        lemma_trailing_white(rest, (n - j) as nat);
        assert(rest.take(rest.len() - (n - j)) =~= s@.subrange(i as int, j as int));
    }
    s.substring_char(i, j)
}

/// The chat's settings: display name, topic and server.
#[derive(Debug, Clone)]
pub struct ChatSettings {
    pub name: String,
    pub topic: String,
    pub uri: String,
}

/// Reads the settings from the command-line arguments `<program> <name>
/// [topic] [uri]`: `None` without a name; the default topic and server where
/// they are not given.
pub fn chat_settings(args: &Vec<String>) -> (r: Option<ChatSettings>)
    ensures
        r is None <==> args@.len() < 2,
        r matches Some(s) ==> {
            &&& s.name@ == args@[1]@
            &&& s.topic@ == (if args@.len() > 2 {
                args@[2]@
            } else {
                DEFAULT_TOPIC@
            })
            &&& s.uri@ == (if args@.len() > 3 {
                args@[3]@
            } else {
                DEFAULT_URI@
            })
        },
{
    if args.len() < 2 {
        return None;
    }
    let name = args[1].clone();
    let topic = if args.len() > 2 {
        args[2].clone()
    } else {
        String::from_str(DEFAULT_TOPIC)
    };
    let uri = if args.len() > 3 {
        args[3].clone()
    } else {
        String::from_str(DEFAULT_URI)
    };
    Some(ChatSettings { name, topic, uri })
}

/// The client name of a chat user.
pub fn chat_client_name(name: &str) -> (s: String)
    ensures
        s@ == "chat-"@ + name@,
{
    let mut s = String::from_str("chat-");
    s.append(name);
    s
}

/// The subscription filter that keeps a user's own messages away: the sender
/// member of a message differs from the user's name.
pub fn chat_filter(name: &str) -> (f: String)
    ensures
        f@ == "/"@ + SENDER_KEY@ + " != '"@ + name@ + "'"@,
{
    let mut f = String::from_str("/");
    f.append(SENDER_KEY);
    f.append(" != '");
    f.append(name);
    f.append("'");
    f
}

/// The line shown for a received message's text, when it is JSON: its sender
/// (`???` when missing) and its text (empty when missing).
pub open spec fn shown_line(fields: (Option<Seq<char>>, Option<Seq<char>>)) -> Seq<char> {
    (match fields.0 {
        Some(s) => s,
        None => "???"@,
    }) + ": "@ + (match fields.1 {
        Some(t) => t,
        None => ""@,
    })
}

/// The line shown for a chat message's members: its sender (`???` when it
/// has none) and its text (empty when it has none).
pub fn chat_line(sender: Option<String>, text: Option<String>) -> (line: String)
    ensures
        line@ == shown_line((opt_text(sender), opt_text(text))),
{
    let mut line = match sender {
        Some(s) => s,
        None => String::from_str("???"),
    };
    line.append(": ");
    match text {
        Some(t) => line.append(t.as_str()),
        None => line.append(""),
    }
    line
}

/// The chat's member names are `sender` and `text`, and they differ.
pub proof fn lemma_chat_keys()
    ensures
        SENDER_KEY@ == "sender"@,
        TEXT_KEY@ == "text"@,
        SENDER_KEY@ != TEXT_KEY@,
{
    reveal_strlit("sender");
    reveal_strlit("text");
    assert(SENDER_KEY@[0] != TEXT_KEY@[0]);
}

/// The line shown for a message's members is its sender, a colon and a space,
/// then its text; `???` stands for a missing sender and nothing for a missing text.
pub proof fn lemma_shown_line(sender: Option<Seq<char>>, text: Option<Seq<char>>)
    ensures
        shown_line((sender, text)) == (match sender {
            Some(a) => a,
            None => seq!['?', '?', '?'],
        }) + seq![':', ' '] + (match text {
            Some(b) => b,
            None => Seq::<char>::empty(),
        }),
{
    reveal_strlit("???");
    reveal_strlit(": ");
    reveal_strlit("");
    assert(shown_line((sender, text)) =~= (match sender {
        Some(a) => a,
        None => seq!['?', '?', '?'],
    }) + seq![':', ' '] + (match text {
        Some(b) => b,
        None => Seq::<char>::empty(),
    }));
}

/// The members read from a received message are its data's `sender` and
/// `text` members, whatever the message holds.
pub proof fn lemma_received_fields(message: &Message)
    ensures
        message_fields(message) == json_str_members(
            utf8_or_empty(payload_bytes(message.payload)),
            "sender"@,
            "text"@,
        ),
{
    lemma_chat_keys();
}

/// The members of a received message's text: sender and text.
pub open spec fn message_fields(message: &Message) -> Option<(Option<Seq<char>>, Option<Seq<char>>)> {
    json_str_members(utf8_or_empty(payload_bytes(message.payload)), SENDER_KEY@, TEXT_KEY@)
}

/// The line to show for a received message: none for a message without data
/// or whose data is not JSON, otherwise `sender: text`.
pub fn incoming_line(message: &Message) -> (r: Option<String>)
    ensures
        r is None <==> (payload_len(message.payload) == 0 || message_fields(message) is None),
        r matches Some(line) ==> line@ == shown_line(message_fields(message)->0),
        r is None <==> (payload_len(message.payload) == 0 || json_str_members(
            utf8_or_empty(payload_bytes(message.payload)),
            "sender"@,
            "text"@,
        ) is None),
        r matches Some(line) ==> line@ == shown_line(
            json_str_members(utf8_or_empty(payload_bytes(message.payload)), "sender"@, "text"@)->0,
        ),
{
    proof {
        lemma_chat_keys();
    }
    if !message.has_data() {
        return None;
    }
    match parse_json_str_members(message.data(), SENDER_KEY, TEXT_KEY) {
        Some((sender, text)) => Some(chat_line(sender, text)),
        None => None,
    }
}

/// The message to publish for a typed line: none for a line that is empty
/// once trimmed, otherwise the JSON object of the user's name as sender and
/// the trimmed line as text.  Read back, its members are that name and text,
/// so it is shown to the other users as `name: text`.
pub fn outgoing_message(name: &str, line: &str) -> (r: Option<String>)
    ensures
        r is None <==> trimmed(line@).len() == 0,
        r is None <==> forall|i: int| 0 <= i < line@.len() ==> white_space(#[trigger] line@[i]),
        r matches Some(m) ==> m@ == json_two_members(SENDER_KEY@, name@, TEXT_KEY@, trimmed(line@)),
        r matches Some(m) ==> m@ == json_two_members("sender"@, name@, "text"@, trimmed(line@)),
        r matches Some(m) ==> json_str_members(m@, SENDER_KEY@, TEXT_KEY@) == Some(
            (Some(name@), Some(trimmed(line@))),
        ),
        r matches Some(m) ==> shown_line(json_str_members(m@, SENDER_KEY@, TEXT_KEY@)->0)
            == name@ + ": "@ + trimmed(line@),
{
    proof {
        lemma_trimmed(line@);
        lemma_chat_keys();
    }
    let text = trim(line);
    if text.is_empty() {
        return None;
    }
    proof {
        reveal_strlit("sender");
        reveal_strlit("text");
        assert(SENDER_KEY@[0] != TEXT_KEY@[0]);
    }
    Some(json_object_two_strs(SENDER_KEY, name, TEXT_KEY, text))
}

} // verus!
