//! JSON encoding of string lists, through serde_json.
use crate::notification::texts;
use crate::text::digit_char;
use vstd::prelude::*;

verus! {

/// What `serde_json::from_str::<Vec<String>>` gives for a text: the list, or None on error.
pub uninterp spec fn spec_parse_string_list(json: Seq<char>) -> Option<Seq<Seq<char>>>;

/// One character as serde_json writes it inside a string: `"` and `\` escaped with a
/// backslash, the control characters with a short escape (`\b`, `\t`, `\n`, `\f`,
/// `\r`) or else `\u00` and two lower-case hex digits, every other character as is.
pub open spec fn json_char(c: char) -> Seq<char> {
    if c == '"' {
        seq!['\\', '"']
    } else if c == '\\' {
        seq!['\\', '\\']
    } else if c == '\u{8}' {
        seq!['\\', 'b']
    } else if c == '\t' {
        seq!['\\', 't']
    } else if c == '\n' {
        seq!['\\', 'n']
    } else if c == '\u{c}' {
        seq!['\\', 'f']
    } else if c == '\r' {
        seq!['\\', 'r']
    } else if (c as u32) < 0x20 {
        seq!['\\', 'u', '0', '0', digit_char((c as u32 / 16) as nat), digit_char((c as u32 % 16) as nat)]
    } else {
        seq![c]
    }
}

/// The characters of a string, each as `json_char` writes it.
pub open spec fn json_escaped(s: Seq<char>) -> Seq<char>
    decreases s.len(),
{
    if s.len() == 0 {
        Seq::empty()
    } else {
        json_escaped(s.drop_last()) + json_char(s.last())
    }
}

/// The JSON strings of a list, separated by commas.
pub open spec fn json_strings(list: Seq<Seq<char>>) -> Seq<char>
    decreases list.len(),
{
    if list.len() == 0 {
        Seq::empty()
    } else if list.len() == 1 {
        seq!['"'] + json_escaped(list[0]) + seq!['"']
    } else {
        json_strings(list.drop_last()) + seq![',', '"'] + json_escaped(list.last()) + seq!['"']
    }
}

/// What `serde_json::to_string` gives for a list of strings: the JSON strings inside
/// brackets, with no spaces.
pub open spec fn json_string_list(list: Seq<Seq<char>>) -> Seq<char> {
    seq!['['] + json_strings(list) + seq![']']
}

/// Calls `serde_json::from_str::<Vec<String>>`; its result is named by `spec_parse_string_list`.
#[verifier::external_body]
pub(crate) fn parse_string_list(json: &str) -> (r: Option<Vec<String>>)
    ensures
        match r {
            Some(v) => spec_parse_string_list(json@) == Some(texts(v@)),
            None => spec_parse_string_list(json@) is None,
        },
{
    serde_json::from_str::<Vec<String>>(json).ok()
}

/// Calls `serde_json::to_string` on a list of strings, which cannot fail for this
/// type: the compact form that `json_string_list` spells out, as serde_json's writer
/// produces it.
#[verifier::external_body]
pub(crate) fn string_list_json(list: &Vec<String>) -> (r: String)
    ensures
        r@ == json_string_list(texts(list@)),
{
    serde_json::to_string(list).unwrap_or_default()
}

/// The strings of a parsed list, or none when the text is not a JSON list of strings.
pub open spec fn parsed_or_empty(json: Seq<char>) -> Seq<Seq<char>> {
    match spec_parse_string_list(json) {
        Some(l) => l,
        None => Seq::empty(),
    }
}

/// Parses a JSON list of strings, falling back to the empty list.
pub fn parse_string_list_or_empty(json: &str) -> (r: Vec<String>)
    ensures
        texts(r@) == parsed_or_empty(json@),
{
    match parse_string_list(json) {
        Some(v) => v,
        None => {
            let v: Vec<String> = Vec::new();
            assert(texts(v@) =~= Seq::empty());
            v
        },
    }
}

} // verus!
