//! The JSON documents exchanged with the model endpoint and the chat-bot
//! platform, read and written through `serde_json`.
use crate::model::opt_view;
use vstd::prelude::*;

verus! {

/// A hexadecimal digit, lower case, for a value below 16.
pub open spec fn hex_digit(n: int) -> char {
    if n < 10 {
        ((n + '0' as int) as u32) as char
    } else {
        ((n - 10 + 'a' as int) as u32) as char
    }
}

/// One character inside a JSON string literal: quote and backslash escaped,
/// the control characters below U+0020 by their short escape or as `\u00XX`,
/// every other character as it is.
pub open spec fn escaped_char(c: char) -> Seq<char> {
    if c == '"' {
        seq!['\\', '"']
    } else if c == '\\' {
        seq!['\\', '\\']
    } else if c == '\u{8}' {
        seq!['\\', 'b']
    } else if c == '\t' {
        seq!['\\', 't']
    } else if c == '\n' {
        seq!['\\', 'n']
    } else if c == '\u{c}' {
        seq!['\\', 'f']
    } else if c == '\r' {
        seq!['\\', 'r']
    } else if (c as u32) < 0x20 {
        seq!['\\', 'u', '0', '0', hex_digit(c as int / 16), hex_digit(c as int % 16)]
    } else {
        seq![c]
    }
}

/// The characters of `s`, each escaped.
pub open spec fn escaped(s: Seq<char>) -> Seq<char>
    decreases s.len(),
{
    if s.len() == 0 {
        Seq::empty()
    } else {
        escaped(s.drop_last()) + escaped_char(s.last())
    }
}

/// A text written as a JSON string literal.
pub open spec fn json_string_of(s: Seq<char>) -> Seq<char> {
    seq!['"'] + escaped(s) + seq!['"']
}

/// Relies on `serde_json::Value::from(&str)` and the `Display` of
/// `serde_json::Value`: a string value prints between quotes, with quote,
/// backslash and the control characters escaped as `escaped_char` says.
#[verifier::external_body]
pub(crate) fn json_quote(s: &str) -> (r: String)
    ensures
        r@ == json_string_of(s@),
{
    serde_json::Value::from(s).to_string()
}

/// Why `serde_json::from_str` refuses `doc` as a JSON value, if it does.
pub uninterp spec fn json_parse_error(doc: Seq<char>) -> Option<Seq<char>>;

/// The compact JSON text of the value that `ptr` addresses in `doc`, if `doc`
/// parses and the pointer addresses a value.
pub uninterp spec fn json_text_at(doc: Seq<char>, ptr: Seq<char>) -> Option<Seq<char>>;

/// The string that `ptr` addresses in `doc`, if `doc` parses and the pointer
/// addresses a string value.
pub uninterp spec fn json_str_at(doc: Seq<char>, ptr: Seq<char>) -> Option<Seq<char>>;

/// The `Debug` dump of the value that `doc` parses to, if it parses.
pub uninterp spec fn json_dump(doc: Seq<char>) -> Option<Seq<char>>;

/// Relies on `serde_json::from_str` and the `Display` of `serde_json::Error`:
/// why the text is no JSON value, and nothing where it is one.
#[verifier::external_body]
fn parse_error(doc: &str) -> (r: Option<String>)
    ensures
        opt_view(r) == json_parse_error(doc@),
{
    serde_json::from_str::<serde_json::Value>(doc).err().map(|e| e.to_string())
}

/// Relies on `serde_json::from_str`, `serde_json::Value::pointer` and the
/// `Display` of `serde_json::Value`: the addressed value as compact JSON;
/// nothing where the text does not parse.
#[verifier::external_body]
fn text_at(doc: &str, ptr: &str) -> (r: Option<String>)
    ensures
        opt_view(r) == json_text_at(doc@, ptr@),
        json_parse_error(doc@) is Some ==> r is None,
{
    serde_json::from_str::<serde_json::Value>(doc).ok().and_then(|v| v.pointer(ptr).map(|x| x.to_string()))
}

/// Relies on `serde_json::from_str`, `serde_json::Value::pointer` and
/// `serde_json::Value::as_str`: the addressed string; nothing where the text
/// does not parse or the value there is no string.
#[verifier::external_body]
fn str_at(doc: &str, ptr: &str) -> (r: Option<String>)
    ensures
        opt_view(r) == json_str_at(doc@, ptr@),
        json_parse_error(doc@) is Some ==> r is None,
{
    serde_json::from_str::<serde_json::Value>(doc).ok().and_then(|v| v.pointer(ptr).and_then(|x| x.as_str()).map(|x| x.to_string()))
}

/// Relies on `serde_json::from_str` and the `Debug` of `serde_json::Value`:
/// a dump of the parsed value, there exactly when the text parses.
#[verifier::external_body]
fn dump(doc: &str) -> (r: Option<String>)
    ensures
        opt_view(r) == json_dump(doc@),
        r is Some <==> json_parse_error(doc@) is None,
{
    serde_json::from_str::<serde_json::Value>(doc).ok().map(|v| format!("{:?}", v))
}

/// What a JSON document holds at one place.
pub enum Lookup {
    /// The text is no JSON document; why.
    Unreadable(String),
    /// The place holds this string.
    Found(String),
    /// The place holds no string; a dump of the whole document.
    Absent(String),
}

/// What `lookup_string` finds in `doc` at `ptr`.
pub open spec fn lookup_matches(doc: Seq<char>, ptr: Seq<char>, r: Lookup) -> bool {
    match r {
        Lookup::Unreadable(why) => json_parse_error(doc) == Some(why@),
        Lookup::Found(s) => json_parse_error(doc) is None && json_str_at(doc, ptr) == Some(s@),
        Lookup::Absent(d) => json_parse_error(doc) is None && json_str_at(doc, ptr) is None
            && json_dump(doc) == Some(d@),
    }
}

/// Looks up the string that `pointer` addresses in the document `doc`.
pub fn lookup_string(doc: &str, pointer: &str) -> (r: Lookup)
    ensures
        lookup_matches(doc@, pointer@, r),
{
    match parse_error(doc) {
        Some(why) => Lookup::Unreadable(why),
        None => match str_at(doc, pointer) {
            Some(s) => Lookup::Found(s),
            None => match dump(doc) {
                Some(d) => Lookup::Absent(d),
                None => Lookup::Unreadable(String::new()),
            },
        },
    }
}

/// What a chat-completion endpoint answered.
pub enum Reply {
    /// The answer is no JSON document; why.
    Unreadable(String),
    /// The answer holds an `error` member; its JSON text.
    Refused(String),
    /// The text of the first choice's message.
    Content(String),
    /// A document of another shape.
    Unexpected,
}

/// How `read_reply` sorts the answer `doc`: a fault in parsing, else an
/// `error` member, else the string content of the first choice's message,
/// else another shape.
pub open spec fn reply_matches(doc: Seq<char>, r: Reply) -> bool {
    match r {
        Reply::Unreadable(why) => json_parse_error(doc) == Some(why@),
        Reply::Refused(t) => json_parse_error(doc) is None && json_text_at(doc, "/error"@) == Some(
            t@,
        ),
        Reply::Content(s) => json_parse_error(doc) is None && json_text_at(doc, "/error"@) is None
            && json_str_at(doc, "/choices/0/message/content"@) == Some(s@),
        Reply::Unexpected => json_parse_error(doc) is None && json_text_at(doc, "/error"@) is None
            && json_str_at(doc, "/choices/0/message/content"@) is None,
    }
}

/// Reads the answer of a chat-completion endpoint.
pub fn read_reply(doc: &str) -> (r: Reply)
    ensures
        reply_matches(doc@, r),
{
    match parse_error(doc) {
        Some(why) => Reply::Unreadable(why),
        None => match text_at(doc, "/error") {
            Some(err) => Reply::Refused(err),
            None => match str_at(doc, "/choices/0/message/content") {
                Some(s) => Reply::Content(s),
                None => Reply::Unexpected,
            },
        },
    }
}

} // verus!
