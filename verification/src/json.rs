//! JSON text, as far as inscriptions need it: strings in their quoted form.

use crate::text::{decimal, digit, lemma_decimal_digits};
use vstd::prelude::*;

verus! {

/// How one character stands inside a JSON string: the quotation mark, the
/// backslash and the control characters are escaped, every other character
/// stands for itself.
pub open spec fn escape(c: char) -> Seq<char> {
    if c == '"' {
        seq!['\\', '"']
    } else if c == '\\' {
        seq!['\\', '\\']
    } else if c == '\u{08}' {
        seq!['\\', 'b']
    } else if c == '\u{0c}' {
        seq!['\\', 'f']
    } else if c == '\n' {
        seq!['\\', 'n']
    } else if c == '\r' {
        seq!['\\', 'r']
    } else if c == '\t' {
        seq!['\\', 't']
    } else if (c as u32) < 0x20 {
        seq!['\\', 'u', '0', '0', digit(c as u32 as int / 16), digit(c as u32 as int % 16)]
    } else {
        seq![c]
    }
}

/// The characters of a text, each as it stands inside a JSON string.
pub open spec fn escaped(s: Seq<char>) -> Seq<char>
    decreases s.len(),
{
    if s.len() == 0 {
        Seq::empty()
    } else {
        escaped(s.drop_last()) + escape(s.last())
    }
}

/// A text as a JSON string: its characters, escaped where JSON asks for it,
/// between quotation marks.
pub open spec fn json_string(s: Seq<char>) -> Seq<char> {
    seq!['"'] + escaped(s) + seq!['"']
}

/// `serde_json::Error`, the error of the functions of `serde_json`: a value
/// that is handed on unread.
#[verifier::external_type_specification]
#[verifier::external_body]
pub struct ExJsonError(serde_json::Error);

/// Calls `serde_json::to_string` on a string slice. The contract claims that
/// the call succeeds, as writing a string into memory cannot fail, and that
/// the text it gives is the string between quotation marks, with `"` and
/// `\` behind a backslash, backspace, form feed, line feed, carriage return
/// and tab as `\b`, `\f`, `\n`, `\r` and `\t`, the other characters below
/// U+0020 as `\u00` and two lowercase hexadecimal digits, and every other
/// character unchanged.
#[verifier::external_body]
fn to_string(s: &str) -> (r: Result<String, serde_json::Error>)
    ensures
        match r {
            Ok(text) => text@ == json_string(s@),
            Err(_) => false,
        },
{
    serde_json::to_string(s)
}

/// Writes a text as a JSON string.
pub fn quote(s: &str) -> (text: String)
    ensures
        text@ == json_string(s@),
{
    to_string(s).unwrap()
}

/// Whether a character stands for itself inside a JSON string.
pub open spec fn is_plain(c: char) -> bool {
    c != '"' && c != '\\' && (c as u32) >= 0x20
}

/// A text of characters that stand for themselves is written between
/// quotation marks as it is.
pub proof fn lemma_plain_text_is_quoted(s: Seq<char>)
    requires
        forall|i: int| 0 <= i < s.len() ==> is_plain(#[trigger] s[i]),
    ensures
        escaped(s) == s,
        json_string(s) == seq!['"'] + s + seq!['"'],
    decreases s.len(),
{
    if s.len() > 0 {
        lemma_plain_text_is_quoted(s.drop_last());
    }
}

/// A number in decimal digits is written between quotation marks as it is.
pub proof fn lemma_decimal_is_quoted(n: nat)
    ensures
        json_string(decimal(n)) == seq!['"'] + decimal(n) + seq!['"'],
{
    lemma_decimal_digits(n);
    lemma_plain_text_is_quoted(decimal(n));
}

} // verus!
