//! JSON text for strings, through `serde_json`.

use vstd::prelude::*;

verus! {

#[verifier::external_type_specification]
#[verifier::external_body]
pub struct ExJsonError(serde_json::Error);

/// `s` between double quotes.
pub open spec fn quoted(s: Seq<char>) -> Seq<char> {
    seq!['"'] + s + seq!['"']
}

/// The lower-case hexadecimal digit of `d`, for `d` in `0..16`.
pub open spec fn hex_digit(d: nat) -> char {
    if d < 10 {
        ((d + 48) as u8) as char
    } else {
        ((d + 87) as u8) as char
    }
}

/// How a character stands inside a JSON string literal: double quote and
/// backslash after a backslash, the usual short escapes for backspace,
/// form feed, line feed, carriage return and tab, other control characters
/// below U+0020 as `\u00` and two hexadecimal digits, any other character
/// as it is.
pub open spec fn escaped_char(c: char) -> Seq<char> {
    if c == '"' {
        seq!['\\', '"']
    } else if c == '\\' {
        seq!['\\', '\\']
    } else if c == '\x08' {
        seq!['\\', 'b']
    } else if c == '\x0C' {
        seq!['\\', 'f']
    } else if c == '\n' {
        seq!['\\', 'n']
    } else if c == '\r' {
        seq!['\\', 'r']
    } else if c == '\t' {
        seq!['\\', 't']
    } else if (c as u32) < 32 {
        seq![
            '\\',
            'u',
            '0',
            '0',
            hex_digit(((c as u32) / 16) as nat),
            hex_digit(((c as u32) % 16) as nat),
        ]
    } else {
        seq![c]
    }
}

/// The characters of `s`, each as it stands inside a JSON string literal.
pub open spec fn escaped_text(s: Seq<char>) -> Seq<char>
    decreases s.len(),
{
    if s.len() == 0 {
        Seq::empty()
    } else {
        escaped_text(s.drop_last()) + escaped_char(s.last())
    }
}

/// The JSON string literal of `s`.
pub open spec fn json_string(s: Seq<char>) -> Seq<char> {
    quoted(escaped_text(s))
}

/// Text that a JSON string literal holds unescaped: no double quote,
/// no backslash and no control character below U+0020.
pub open spec fn is_plain_json_text(s: Seq<char>) -> bool {
    forall|i: int| 0 <= i < s.len() ==> {
        &&& #[trigger] s[i] != '"'
        &&& s[i] != '\\'
        &&& (s[i] as u32) >= 32
    }
}

/// Plain text stands in a JSON string literal as it is.
pub proof fn lemma_plain_text_unescaped(s: Seq<char>)
    requires
        is_plain_json_text(s),
    ensures
        escaped_text(s) == s,
        json_string(s) == quoted(s),
    decreases s.len(),
{
    if s.len() > 0 {
        assert(is_plain_json_text(s.drop_last()));
        lemma_plain_text_unescaped(s.drop_last());
        let c = s.last();
        assert(s[s.len() - 1] == c);
        assert(escaped_char(c) == seq![c]);
        assert(s.drop_last().push(c) =~= s);
        assert(s.drop_last() + seq![c] =~= s);
    } else {
        assert(s =~= Seq::<char>::empty());
    }
}

/// Calls `serde_json::to_string` on a `str`. Its source writes the string
/// into a `Vec<u8>`, which cannot fail, so the result is always `Ok`: a
/// double quote, each byte of the text with the escapes of its table
/// (`"`, `\`, and the bytes below 0x20, which no byte of a multi-byte
/// character is), and a double quote.
#[verifier::external_body]
fn serialize_json_str(s: &str) -> (r: Result<String, serde_json::Error>)
    ensures
        r is Ok,
        r->Ok_0@ == json_string(s@),
{
    serde_json::to_string(s)
}

/// The JSON string literal of `s`.
pub fn encode_json_string(s: &str) -> (t: String)
    ensures
        t@ == json_string(s@),
{
    match serialize_json_str(s) {
        Ok(t) => t,
        Err(_) => {
            proof {
                assert(false);
            }
            String::new()
        },
    }
}

} // verus!
