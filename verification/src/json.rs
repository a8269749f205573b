//! JSON text handling. JSON payloads travel through the runtime as their
//! text; parsing and quoting are done by `serde_json`.

use vstd::prelude::*;

verus! {

/// What `serde_json::from_str::<serde_json::Value>` reports for a text:
/// `None` when the text is one JSON value, else the error's display text.
pub uninterp spec fn json_parse_error(text: Seq<char>) -> Option<Seq<char>>;

/// What `serde_json::to_string` gives for a string: its JSON string literal.
pub uninterp spec fn json_string_literal(s: Seq<char>) -> Seq<char>;

/// What `serde_json::from_str::<String>` gives for a text: the string when
/// the text is one JSON string literal, else nothing.
pub uninterp spec fn json_as_string(text: Seq<char>) -> Option<Seq<char>>;

/// What `serde_json::Value::to_string` gives for the value that `text`
/// parses to (`serde_json::from_str`): its compact text; nothing when the
/// text does not parse.
pub uninterp spec fn json_compact_form(text: Seq<char>) -> Option<Seq<char>>;

/// Unicode `White_Space`, the set that `char::is_whitespace` documents.
pub open spec fn is_unicode_whitespace(c: char) -> bool {
    let n = c as u32;
    ||| 0x09 <= n <= 0x0d
    ||| n == 0x20
    ||| n == 0x85
    ||| n == 0xa0
    ||| n == 0x1680
    ||| 0x2000 <= n <= 0x200a
    ||| n == 0x2028
    ||| n == 0x2029
    ||| n == 0x202f
    ||| n == 0x205f
    ||| n == 0x3000
}

/// `t` is `s` without its leading and trailing white space.
pub open spec fn is_trim_of(s: Seq<char>, t: Seq<char>) -> bool {
    exists|i: int, j: int|
        0 <= i <= j <= s.len() && t == s.subrange(i, j)
        && (forall|k: int| 0 <= k < i ==> is_unicode_whitespace(#[trigger] s[k]))
        && (forall|k: int| j <= k < s.len() ==> is_unicode_whitespace(#[trigger] s[k]))
        && (i < j ==> !is_unicode_whitespace(s[i]) && !is_unicode_whitespace(s[j - 1]))
}

/// Calls `str::trim`, which std documents as removing leading and trailing
/// white space (Unicode `White_Space`).
#[verifier::external_body]
pub fn trim_text(s: &str) -> (t: &str)
    ensures
        is_trim_of(s@, t@),
{
    s.trim()
}

/// Calls `serde_json::from_str::<serde_json::Value>`; the result is the
/// error's display text, or `None` when the text parses. Claimed: the result
/// is `json_parse_error` of the text.
#[verifier::external_body]
pub fn parse_error_of(text: &str) -> (r: Option<String>)
    ensures
        r.deep_view() == json_parse_error(text@),
{
    match serde_json::from_str::<serde_json::Value>(text) {
        Ok(_) => None,
        Err(e) => Some(e.to_string()),
    }
}

/// Calls `serde_json::to_string` on a string. Claimed: the result is
/// `json_string_literal` of the string.
#[verifier::external_body]
pub fn quote(s: &str) -> (r: String)
    ensures
        r@ == json_string_literal(s@),
{
    match serde_json::to_string(s) {
        Ok(t) => t,
        Err(_) => String::new(),
    }
}

/// Calls `serde_json::from_str::<String>`. Claimed: the result is
/// `json_as_string` of the text.
#[verifier::external_body]
pub fn string_value_of(text: &str) -> (r: Option<String>)
    ensures
        r.deep_view() == json_as_string(text@),
{
    serde_json::from_str::<String>(text).ok()
}

/// Parses with `serde_json::from_str::<serde_json::Value>` and prints back
/// with `to_string`; `None` when the text does not parse.
/// Claimed: the result is `json_compact_form` of the text.
#[verifier::external_body]
pub fn compact(text: &str) -> (r: Option<String>)
    ensures
        match r {
            Some(c) => json_compact_form(text@) == Some(c@),
            None => json_compact_form(text@) is None,
        },
{
    match serde_json::from_str::<serde_json::Value>(text) {
        Ok(v) => Some(v.to_string()),
        Err(_) => None,
    }
}

} // verus!
