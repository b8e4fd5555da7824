//! JSON text: the strings and lists of strings that rows and receipts carry, and
//! the objects framed around them.

use vstd::prelude::*;

use crate::text::{join, joined};

verus! {

/// An error of `serde_json`.
#[verifier::external_type_specification]
#[verifier::external_body]
pub struct ExJsonError(serde_json::Error);

/// The hexadecimal digit of a number below sixteen.
pub open spec fn hex_digit(n: int) -> char {
    if n < 10 {
        (48 + n) as char
    } else {
        (87 + n) as char
    }
}

/// A character as a JSON string writes it.
pub open spec fn escaped_char(c: char) -> Seq<char> {
    if c == '"' {
        seq!['\\', '"']
    } else if c == '\\' {
        seq!['\\', '\\']
    } else if c == '\u{8}' {
        seq!['\\', 'b']
    } else if c == '\t' {
        seq!['\\', 't']
    } else if c == '\n' {
        seq!['\\', 'n']
    } else if c == '\u{c}' {
        seq!['\\', 'f']
    } else if c == '\r' {
        seq!['\\', 'r']
    } else if ' ' > c {
        seq!['\\', 'u', '0', '0', hex_digit(c as int / 16), hex_digit(c as int % 16)]
    } else {
        seq![c]
    }
}

/// A text as a JSON string writes it, without the quotes around it.
pub open spec fn escaped(s: Seq<char>) -> Seq<char>
    decreases s.len(),
{
    if s.len() == 0 {
        Seq::<char>::empty()
    } else {
        escaped(s.drop_last()) + escaped_char(s.last())
    }
}

/// A text as a JSON string.
pub open spec fn quoted(s: Seq<char>) -> Seq<char> {
    seq!['"'] + escaped(s) + seq!['"']
}

/// Texts as a JSON array of strings.
pub open spec fn quoted_list(list: Seq<Seq<char>>) -> Seq<char> {
    seq!['['] + joined(list.map_values(|s: Seq<char>| quoted(s)), seq![',']) + seq![']']
}

/// `serde_json::to_string` on a string slice. It writes the quotes, escapes the
/// quote, the backslash and the control characters below U+0020, leaves every
/// other character as it is, and does not fail.
#[verifier::external_body]
pub(crate) fn string_to_json(value: &str) -> (r: Result<String, serde_json::Error>)
    ensures
        r is Ok,
        r->Ok_0@ == quoted(value@),
{
    serde_json::to_string(value)
}

/// What `serde_json` reads in a text as an array of strings; `None` where the text
/// is not one.
pub uninterp spec fn strings_in_json(text: Seq<char>) -> Option<Seq<Seq<char>>>;

/// `serde_json::to_string` on a vector of strings. It writes them as JSON strings
/// between brackets with commas, does not fail, and what it writes reads back as
/// the same strings.
#[verifier::external_body]
pub(crate) fn strings_to_json(values: &Vec<String>) -> (r: Result<String, serde_json::Error>)
    ensures
        r is Ok,
        r->Ok_0@ == quoted_list(values.deep_view()),
        strings_in_json(r->Ok_0@) == Some(values.deep_view()),
{
    serde_json::to_string(values)
}

/// `serde_json::from_str` into a vector of strings: the strings that
/// [`strings_in_json`] names, or an error where it names none.
#[verifier::external_body]
pub(crate) fn strings_from_json(text: &str) -> (r: Result<Vec<String>, serde_json::Error>)
    ensures
        match r {
            Ok(values) => strings_in_json(text@) == Some(values.deep_view()),
            Err(_) => strings_in_json(text@) is None,
        },
{
    serde_json::from_str(text)
}

/// A text as `serde_json` writes the value it reads in it; `None` where the text
/// is not JSON.
pub uninterp spec fn rewritten_json(text: Seq<char>) -> Option<Seq<char>>;

/// `serde_json::from_str` into a `serde_json::Value`, written back by its
/// `to_string`: the text that [`rewritten_json`] names, or an error where it names
/// none.
#[verifier::external_body]
pub(crate) fn rewrite_json(text: &str) -> (r: Result<String, serde_json::Error>)
    ensures
        match r {
            Ok(written) => rewritten_json(text@) == Some(written@),
            Err(_) => rewritten_json(text@) is None,
        },
{
    let value: serde_json::Value = serde_json::from_str(text)?;
    Ok(value.to_string())
}

/// What a JSON Pointer finds in a JSON text: `None` where the text is not JSON or
/// nothing is there, `Some(None)` where what is there is no string.
pub uninterp spec fn pointed_text(text: Seq<char>, pointer: Seq<char>) -> Option<
    Option<Seq<char>>,
>;

/// `serde_json::Value::pointer` and `as_str` on the value that
/// `serde_json::from_str` reads: what [`pointed_text`] names.
#[verifier::external_body]
pub(crate) fn text_at_pointer(text: &str, pointer: &str) -> (r: Option<Option<String>>)
    ensures
        r.deep_view() == pointed_text(text@, pointer@),
{
    let value: serde_json::Value = serde_json::from_str(text).ok()?;
    value.pointer(pointer).map(|found| found.as_str().map(str::to_string))
}

/// The strings that a stored array holds; none where it cannot be read.
pub open spec fn stored_strings(text: Seq<char>) -> Seq<Seq<char>> {
    match strings_in_json(text) {
        Some(list) => list,
        None => Seq::empty(),
    }
}

/// The strings that a stored array holds; none where it cannot be read.
pub fn strings_or_none(text: &str) -> (r: Vec<String>)
    ensures
        r.deep_view() == stored_strings(text@),
{
    match strings_from_json(text) {
        Ok(list) => list,
        Err(_) => {
            let none: Vec<String> = Vec::new();
            proof {
                assert(none.deep_view() =~= Seq::<Seq<char>>::empty());
            }
            none
        },
    }
}

/// A text as a JSON string.
pub fn quote(value: &str) -> (r: String)
    ensures
        r@ == quoted(value@),
{
    match string_to_json(value) {
        Ok(text) => text,
        Err(_) => String::new(),
    }
}

/// Texts as a JSON array of strings.
pub fn quote_list(values: &Vec<String>) -> (r: String)
    ensures
        r@ == quoted_list(values.deep_view()),
        strings_in_json(r@) == Some(values.deep_view()),
{
    match strings_to_json(values) {
        Ok(text) => text,
        Err(_) => String::new(),
    }
}

/// A text as a JSON string, or `null`.
pub open spec fn quoted_or_null(value: Option<Seq<char>>) -> Seq<char> {
    match value {
        Some(text) => quoted(text),
        None => "null"@,
    }
}

/// A text as a JSON string, or `null`.
pub fn quote_or_null(value: Option<&str>) -> (r: String)
    ensures
        r@ == quoted_or_null(value.deep_view()),
{
    match value {
        Some(text) => quote(text),
        None => "null".to_owned(),
    }
}

/// The JSON notation of a truth value.
pub open spec fn bool_json(value: bool) -> Seq<char> {
    if value {
        "true"@
    } else {
        "false"@
    }
}

/// A member of an object: its key, and its value's JSON text.
pub open spec fn member(key: Seq<char>, value: Seq<char>) -> Seq<char> {
    quoted(key) + seq![':'] + value
}

/// The object with these members, in this order.
pub open spec fn object_of(members: Seq<Seq<char>>) -> Seq<char> {
    seq!['{'] + joined(members, seq![',']) + seq!['}']
}

/// The JSON text of a member.
pub fn member_text(key: &str, value: &str) -> (r: String)
    ensures
        r@ == member(key@, value@),
{
    proof {
        reveal_strlit(":");
        assert(":"@ =~= seq![':']);
    }
    quote(key).concat(":").concat(value)
}

/// The JSON text of an object.
pub fn object_text(members: &Vec<String>) -> (r: String)
    ensures
        r@ == object_of(members.deep_view()),
{
    proof {
        reveal_strlit("{");
        reveal_strlit("}");
        reveal_strlit(",");
        assert("{"@ =~= seq!['{']);
        assert("}"@ =~= seq!['}']);
        assert(","@ =~= seq![',']);
    }
    "{".to_owned().concat(join(members, ",").as_str()).concat("}")
}

} // verus!
