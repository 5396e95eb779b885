//! JSON text in and out, through `serde_json`, and UTF-8 text from bytes.

use vstd::prelude::*;
use vstd::utf8::*;
use serde_json::Value::{Array, Bool, Null, Number, Object, String as Str};

verus! {

/// One member value of a JSON object, as far as the request schemas read it.
pub enum JsonField {
    Null,
    Text(String),
    /// An array: each element that is a string, or `None` for one that is not.
    List(Vec<Option<String>>),
    /// A number, a boolean or an object.
    Other,
}

/// What a JSON document reads as: an error message where the text is not JSON,
/// the members of the object (in the parser's map order) where it is an object,
/// and `None` for any other document.
pub type ParsedDocument = Result<Option<Vec<(String, JsonField)>>, String>;

/// The outcome of `serde_json::from_str::<serde_json::Value>` on a text, read as above.
pub uninterp spec fn json_document_of(text: Seq<char>) -> ParsedDocument;

/// A lowercase hexadecimal digit.
pub open spec fn hex_digit(d: u32) -> char {
    if d < 10 {
        ((d + 0x30) as u8) as char
    } else {
        ((d - 10 + 0x61) as u8) as char
    }
}

/// How one character stands inside a JSON string: quote and backslash behind a
/// backslash, five control characters by their short escapes, the other control
/// characters as `\u00XX`, and every other character as it is.
pub open spec fn escape_char(c: char) -> Seq<char> {
    let n = c as u32;
    if c == '"' {
        seq!['\\', '"']
    } else if c == '\\' {
        seq!['\\', '\\']
    } else if n == 0x08 {
        seq!['\\', 'b']
    } else if n == 0x09 {
        seq!['\\', 't']
    } else if n == 0x0A {
        seq!['\\', 'n']
    } else if n == 0x0C {
        seq!['\\', 'f']
    } else if n == 0x0D {
        seq!['\\', 'r']
    } else if n < 0x20 {
        seq!['\\', 'u', '0', '0', hex_digit(n / 16), hex_digit(n % 16)]
    } else {
        seq![c]
    }
}

/// The characters of a string, each escaped.
pub open spec fn escaped(s: Seq<char>) -> Seq<char>
    decreases s.len(),
{
    if s.len() == 0 {
        Seq::empty()
    } else {
        escaped(s.drop_last()) + escape_char(s.last())
    }
}

/// The JSON string literal for a string: the escaped characters between quotes.
pub open spec fn json_string_literal(s: Seq<char>) -> Seq<char> {
    seq!['"'] + escaped(s) + seq!['"']
}

/// Relies on `serde_json::from_str::<serde_json::Value>`: parses the whole text as one
/// JSON document; its error is kept as its debug text, and an object's members are
/// moved out one by one, each value told apart by its variant.
#[verifier::external_body]
pub(crate) fn parse_document(text: &str) -> (r: ParsedDocument)
    ensures
        r == json_document_of(text@),
{
    match serde_json::from_str(text) {
        Err(e) => Err(format!("{:?}", e)),
        Ok(Object(m)) => Ok(Some(m.into_iter().map(|(k, v)| (k, match v {
            Null => JsonField::Null,
            Str(s) => JsonField::Text(s),
            Array(a) => JsonField::List(a.into_iter().map(|x| match x {
                Str(s) => Some(s),
                Null | Bool(_) | Number(_) | Array(_) | Object(_) => None,
            }).collect()),
            Bool(_) | Number(_) | Object(_) => JsonField::Other,
        })).collect())),
        Ok(Null | Bool(_) | Number(_) | Str(_) | Array(_)) => Ok(None),
    }
}

/// Relies on `serde_json::to_string` on a `&str`: the quoted and escaped JSON
/// string, which cannot fail.
#[verifier::external_body]
pub(crate) fn quote(s: &str) -> (r: String)
    ensures
        r@ == json_string_literal(s@),
{
    serde_json::to_string(s).unwrap_or_default()
}

/// Relies on `std::str::from_utf8`: it succeeds exactly on valid UTF-8, and the
/// text then holds the characters the bytes encode.
#[verifier::external_body]
pub(crate) fn utf8_text(bytes: &[u8]) -> (r: Option<&str>)
    ensures
        r is Some <==> valid_utf8(bytes@),
        r is Some ==> r->Some_0@ == decode_utf8(bytes@),
{
    std::str::from_utf8(bytes).ok()
}

} // verus!
