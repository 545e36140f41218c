//! JSON text: how strings are quoted and when a text is a well-formed
//! document. Both are `serde_json`'s work; the contracts here say what the
//! service relies on.

use vstd::prelude::*;
use crate::errors::{ZkpError, ZkpErrorView};

verus! {

/// Whether `c` stands for itself inside a JSON string: every character but
/// the quotation mark, the backslash and the control characters below
/// U+0020.
pub open spec fn json_plain_char(c: char) -> bool {
    c != '"' && c != '\\' && (c as u32) >= 0x20
}

/// Whether every character of `s` stands for itself inside a JSON string.
pub open spec fn json_plain(s: Seq<char>) -> bool {
    forall|i: int| 0 <= i < s.len() ==> json_plain_char(#[trigger] s[i])
}

/// The JSON string literal for a text with characters that need escaping,
/// as `serde_json` writes it.
pub uninterp spec fn json_escaped(s: Seq<char>) -> Seq<char>;

/// What keeps `serde_json` from reading `text` as one JSON document: the
/// message of its error, or `None` where the text is well-formed.
pub uninterp spec fn json_defect(text: Seq<char>) -> Option<Seq<char>>;

/// The JSON string literal for `s`: `s` between quotation marks where no
/// character needs escaping, and the escaped form otherwise.
pub open spec fn json_string_text(s: Seq<char>) -> Seq<char> {
    if json_plain(s) {
        seq!['"'] + s + seq!['"']
    } else {
        json_escaped(s)
    }
}

/// Whether `text` is one well-formed JSON document.
pub open spec fn json_well_formed(text: Seq<char>) -> bool {
    json_defect(text) is None
}

/// `serde_json::to_string` on a string slice. The documentation names two
/// causes of failure, a failing `Serialize` impl and a map with non-string
/// keys; a string slice has neither, so the call returns `Ok`. The text
/// returned is the JSON string literal: the characters between quotation
/// marks, with the quotation mark, the backslash and the control characters
/// below U+0020 escaped and every other character written as it is.
#[verifier::external_body]
fn quote(s: &str) -> (quoted: Result<String, String>)
    ensures
        quoted is Ok,
        quoted matches Ok(text) ==> text@ == (if json_plain(s@) {
            seq!['"'] + s@ + seq!['"']
        } else {
            json_escaped(s@)
        }),
{
    serde_json::to_string(s).map_err(|e| e.to_string())
}

/// `serde_json::from_str` with `serde_json::Value` as the target: `Ok` if
/// the text is one JSON document, and otherwise the error's message, which
/// names what is wrong and where. The parsed value is dropped.
#[verifier::external_body]
fn parse(text: &str) -> (parsed: Result<(), String>)
    ensures
        json_defect(text@) == match parsed {
            Ok(_) => None,
            Err(message) => Some(message@),
        },
{
    serde_json::from_str::<serde_json::Value>(text).map(|_| ()).map_err(|e| e.to_string())
}

/// The JSON string literal for `s`.
pub fn json_quote(s: &str) -> (literal: String)
    ensures
        literal@ == json_string_text(s@),
{
    quote(s).unwrap()
}

/// Checks that `text` is one well-formed JSON document, and fails with
/// `JsonError` and the parser's message if it is not.
pub fn json_check(text: &str) -> (checked: Result<(), ZkpError>)
    ensures
        checked is Ok <==> json_well_formed(text@),
        checked matches Err(e) ==> json_defect(text@) matches Some(message) && e@
            == ZkpErrorView::JsonError(message),
{
    match parse(text) {
        Ok(()) => Ok(()),
        Err(message) => Err(ZkpError::JsonError(message)),
    }
}

} // verus!
