//! JSON text: how a string is written as a JSON string literal, and the
//! serde_json calls that write and read such literals.
use vstd::prelude::*;

verus! {

#[verifier::external_type_specification]
#[verifier::external_body]
pub struct ExJsonError(serde_json::Error);

/// A hexadecimal digit, in lower case.
pub open spec fn hex_digit(d: nat) -> char {
    if d < 10 {
        ((d + 48) as u32) as char
    } else {
        ((d + 87) as u32) as char
    }
}

/// How one character appears inside a JSON string literal: quote and
/// backslash are escaped, control characters below U+0020 take a short escape
/// where JSON has one and `\u00XX` otherwise, every other character stands as
/// itself.
pub open spec fn escaped_char(c: char) -> Seq<char> {
    if c == '"' {
        seq!['\\', '"']
    } else if c == '\\' {
        seq!['\\', '\\']
    } else if c == '\x08' {
        seq!['\\', 'b']
    } else if c == '\t' {
        seq!['\\', 't']
    } else if c == '\n' {
        seq!['\\', 'n']
    } else if c == '\x0c' {
        seq!['\\', 'f']
    } else if c == '\r' {
        seq!['\\', 'r']
    } else if (c as u32) < 0x20 {
        seq!['\\', 'u', '0', '0', hex_digit((c as u32 as nat) / 16), hex_digit((c as u32 as nat) % 16)]
    } else {
        seq![c]
    }
}

/// The characters of `s`, each escaped.
pub open spec fn escaped(s: Seq<char>) -> Seq<char>
    decreases s.len(),
{
    if s.len() == 0 {
        Seq::empty()
    } else {
        escaped_char(s[0]) + escaped(s.drop_first())
    }
}

/// `s` as a JSON string literal.
pub open spec fn quoted(s: Seq<char>) -> Seq<char> {
    seq!['"'] + escaped(s) + seq!['"']
}

/// A character that a JSON string literal holds unescaped.
pub open spec fn is_plain_char(c: char) -> bool {
    c != '"' && c != '\\' && (c as u32) >= 0x20
}

/// A text none of whose characters needs an escape.
pub open spec fn is_plain(s: Seq<char>) -> bool {
    forall|i: int| 0 <= i < s.len() ==> is_plain_char(#[trigger] s[i])
}

/// Escaping leaves a plain text as it is.
pub proof fn lemma_escaped_plain(s: Seq<char>)
    requires
        is_plain(s),
    ensures
        escaped(s) == s,
    decreases s.len(),
{
    if s.len() > 0 {
        assert(is_plain_char(s[0]));
        assert(is_plain(s.drop_first())) by {
            assert forall|i: int| 0 <= i < s.drop_first().len() implies is_plain_char(
                #[trigger] s.drop_first()[i],
            ) by {
                assert(s.drop_first()[i] == s[i + 1]);
            }
        }
        lemma_escaped_plain(s.drop_first());
        assert(s == seq![s[0]] + s.drop_first());
    }
}

/// What serde_json reads from a JSON text that should hold one string:
/// `Some` of the string, or `None` where the text is no such JSON.
pub uninterp spec fn decoded_json_string(text: Seq<char>) -> Option<Seq<char>>;

/// Relies on `serde_json::to_string` for a `str`: it writes the string as a
/// JSON string literal, escaping as `escaped_char` says, and cannot fail on a
/// string.
#[verifier::external_body]
pub(crate) fn json_string_literal(s: &str) -> (r: Result<String, serde_json::Error>)
    ensures
        r is Ok,
        r is Ok ==> r->Ok_0@ == quoted(s@),
{
    serde_json::to_string(s)
}

/// Relies on `serde_json::from_str::<String>`: it parses a JSON text that
/// holds one string, and reads back every string literal that
/// `serde_json::to_string` writes.
#[verifier::external_body]
pub(crate) fn parse_json_string(text: &str) -> (r: Result<String, serde_json::Error>)
    ensures
        r is Ok ==> decoded_json_string(text@) == Some(r->Ok_0@),
        r is Err ==> decoded_json_string(text@) is None,
        forall|s: Seq<char>| text@ == quoted(s) ==> r is Ok && r->Ok_0@ == s,
{
    serde_json::from_str::<String>(text)
}

} // verus!
