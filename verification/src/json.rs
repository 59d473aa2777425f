//! The JavaScript and JSON literals that the generated code embeds, as
//! `serde_json` writes them.

use crate::chunk::{ModuleId, ModuleIdView};
use vstd::prelude::*;

verus! {

/// The character of the hexadecimal digit `d`, in lower case.
pub open spec fn hex_digit(d: nat) -> char {
    if d < 10 {
        decimal_digit(d)
    } else if d == 10 {
        'a'
    } else if d == 11 {
        'b'
    } else if d == 12 {
        'c'
    } else if d == 13 {
        'd'
    } else if d == 14 {
        'e'
    } else {
        'f'
    }
}

/// What stands for the character `c` inside a JSON string literal: a
/// backslash before a double quote or a backslash; the short escapes of
/// backspace, tab, line feed, form feed and carriage return; `\u00` and two
/// hexadecimal digits for any other character below U+0020; and any other
/// character itself.
pub open spec fn json_escaped_char(c: char) -> Seq<char> {
    if c == '"' {
        seq!['\\', '"']
    } else if c == '\\' {
        seq!['\\', '\\']
    } else if c == '\u{8}' {
        seq!['\\', 'b']
    } else if c == '\t' {
        seq!['\\', 't']
    } else if c == '\n' {
        seq!['\\', 'n']
    } else if c == '\u{c}' {
        seq!['\\', 'f']
    } else if c == '\r' {
        seq!['\\', 'r']
    } else if (c as u32) < 0x20 {
        seq!['\\', 'u', '0', '0', hex_digit((c as u32 / 16) as nat), hex_digit((c as u32 % 16) as nat)]
    } else {
        seq![c]
    }
}

/// What stands for the characters of `s` inside a JSON string literal, one
/// after the other.
pub open spec fn json_escaped(s: Seq<char>) -> Seq<char>
    decreases s.len(),
{
    if s.len() == 0 {
        Seq::empty()
    } else {
        json_escaped(s.drop_last()) + json_escaped_char(s.last())
    }
}

/// The JSON string literal of the string `s`: its characters, escaped, in
/// double quotes.
pub open spec fn json_string_text(s: Seq<char>) -> Seq<char> {
    seq!['"'] + json_escaped(s) + seq!['"']
}

/// Whether `c` stands for itself inside a JSON string literal.
pub open spec fn is_plain_char(c: char) -> bool {
    c != '"' && c != '\\' && (c as u32) >= 0x20
}

/// A string of characters that all stand for themselves is written as
/// itself, in double quotes.
pub proof fn lemma_json_string_text_of_plain(s: Seq<char>)
    requires
        forall|i: int| 0 <= i < s.len() ==> is_plain_char(#[trigger] s[i]),
    ensures
        json_escaped(s) == s,
        json_string_text(s) == seq!['"'] + s + seq!['"'],
    decreases s.len(),
{
    if s.len() > 0 {
        let front = s.drop_last();
        assert(forall|i: int| 0 <= i < front.len() ==> front[i] == s[i]);
        lemma_json_string_text_of_plain(front);
        assert(is_plain_char(s[s.len() - 1]));
        assert(json_escaped_char(s.last()) =~= seq![s.last()]);
        assert(front + seq![s.last()] =~= s);
    }
}

/// The character of the decimal digit `d`.
pub open spec fn decimal_digit(d: nat) -> char {
    if d == 0 {
        '0'
    } else if d == 1 {
        '1'
    } else if d == 2 {
        '2'
    } else if d == 3 {
        '3'
    } else if d == 4 {
        '4'
    } else if d == 5 {
        '5'
    } else if d == 6 {
        '6'
    } else if d == 7 {
        '7'
    } else if d == 8 {
        '8'
    } else {
        '9'
    }
}

/// The decimal numeral of `n`, without leading zeros.
pub open spec fn decimal_text(n: nat) -> Seq<char>
    decreases n,
{
    if n < 10 {
        seq![decimal_digit(n)]
    } else {
        decimal_text(n / 10).push(decimal_digit(n % 10))
    }
}

/// The JSON string literals of `items`, in order, with a comma between each
/// two of them.
pub open spec fn json_strings_joined(items: Seq<Seq<char>>) -> Seq<char>
    decreases items.len(),
{
    if items.len() == 0 {
        Seq::empty()
    } else if items.len() == 1 {
        json_string_text(items[0])
    } else {
        json_strings_joined(items.drop_last()) + seq![','] + json_string_text(items.last())
    }
}

/// The compact JSON text of the array of the strings `items`.
pub open spec fn json_array_text(items: Seq<Seq<char>>) -> Seq<char> {
    seq!['['] + json_strings_joined(items) + seq![']']
}

/// The JavaScript expression that stands for the module identifier `id`: a
/// decimal numeral, or a string literal.
pub open spec fn module_id_literal(id: ModuleIdView) -> Seq<char> {
    match id {
        ModuleIdView::Number(n) => decimal_text(n as nat),
        ModuleIdView::String(s) => json_string_text(s),
    }
}

/// Writes `n` as `serde_json::Value`'s `Display` does for a number made from
/// a `u32`: its decimal numeral. Believed, not proved.
#[verifier::external_body]
pub(crate) fn stringify_number(n: u32) -> (text: String)
    ensures
        text@ == decimal_text(n as nat),
{
    format!("{}", serde_json::Value::from(n))
}

/// Writes `s` as `serde_json::Value`'s `Display` does for a string: in
/// double quotes, with a backslash before each double quote and backslash,
/// control characters below U+0020 escaped, and all else unchanged. Believed,
/// not proved.
#[verifier::external_body]
pub(crate) fn stringify_str(s: &str) -> (text: String)
    ensures
        text@ == json_string_text(s@),
{
    format!("{}", serde_json::Value::from(s))
}

/// Writes `items` as `serde_json::Value`'s `Display` does for an array of
/// strings: an opening bracket, the string literals of the items in order,
/// separated by commas, and a closing bracket, with no white space. Believed,
/// not proved.
#[verifier::external_body]
pub(crate) fn stringify_array(items: &Vec<String>) -> (text: String)
    ensures
        text@ == json_array_text(items.deep_view()),
{
    let values = items.iter().map(|item| serde_json::Value::from(item.as_str())).collect();
    format!("{}", serde_json::Value::Array(values))
}

/// The JavaScript expression that stands for the module identifier `id`.
pub fn stringify_js(id: &ModuleId) -> (text: String)
    ensures
        text@ == module_id_literal(id@),
{
    match id {
        ModuleId::Number(n) => stringify_number(*n),
        ModuleId::String(s) => stringify_str(s.as_str()),
    }
}

} // verus!
