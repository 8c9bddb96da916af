//! Compact JSON text: strings, `null`, and objects whose members are written
//! in a fixed order without any whitespace.

use vstd::prelude::*;
use crate::crypto::hex::hex_digit;
use crate::text::{push_char, push_text};

verus! {

/// How one character is written inside a JSON string: the quote and the
/// backslash are escaped, control characters below U+0020 use their short
/// escape or `\u00xx`, everything else is written as it is.
pub open spec fn json_escape_char(c: char) -> Seq<char> {
    if c == '"' {
        seq!['\\', '"']
    } else if c == '\\' {
        seq!['\\', '\\']
    } else if c == '\u{8}' {
        seq!['\\', 'b']
    } else if c == '\t' {
        seq!['\\', 't']
    } else if c == '\n' {
        seq!['\\', 'n']
    } else if c == '\u{c}' {
        seq!['\\', 'f']
    } else if c == '\r' {
        seq!['\\', 'r']
    } else if (c as int) < 32 {
        seq!['\\', 'u', '0', '0', hex_digit(c as int / 16), hex_digit(c as int % 16)]
    } else {
        seq![c]
    }
}

/// The escaped form of every character of `s`, in order.
pub open spec fn json_escape(s: Seq<char>) -> Seq<char>
    decreases s.len(),
{
    if s.len() == 0 {
        Seq::<char>::empty()
    } else {
        json_escape(s.drop_last()) + json_escape_char(s.last())
    }
}

/// `s` as a JSON string: escaped and enclosed in double quotes.
pub open spec fn json_string(s: Seq<char>) -> Seq<char> {
    seq!['"'] + json_escape(s) + seq!['"']
}

/// An optional string as a JSON value: `null` when absent.
pub open spec fn json_value(v: Option<Seq<char>>) -> Seq<char> {
    match v {
        Some(s) => json_string(s),
        None => seq!['n', 'u', 'l', 'l'],
    }
}

/// One member of a JSON object: the key, a colon, the value.
pub open spec fn json_member(key: Seq<char>, value: Option<Seq<char>>) -> Seq<char> {
    json_string(key) + seq![':'] + json_value(value)
}

/// The members of a JSON object, separated by commas, in the order given.
pub open spec fn json_members(entries: Seq<(Seq<char>, Option<Seq<char>>)>) -> Seq<char>
    decreases entries.len(),
{
    if entries.len() == 0 {
        Seq::<char>::empty()
    } else if entries.len() == 1 {
        json_member(entries[0].0, entries[0].1)
    } else {
        json_members(entries.drop_last()) + seq![','] + json_member(
            entries.last().0,
            entries.last().1,
        )
    }
}

/// A JSON object with the given members, in the order given.
pub open spec fn json_object(entries: Seq<(Seq<char>, Option<Seq<char>>)>) -> Seq<char> {
    seq!['{'] + json_members(entries) + seq!['}']
}

/// The lower-case hexadecimal digit of a value below 16.
fn hex_char(n: u8) -> (r: char)
    requires
        n < 16,
    ensures
        r == hex_digit(n as int),
{
    if n < 10 {
        (48 + n) as char
    } else {
        (87 + n) as char
    }
}

/// Appends the escaped form of `c` to `out`.
fn push_escaped(out: &mut String, c: char)
    ensures
        final(out)@ == old(out)@ + json_escape_char(c),
{
    if c == '"' {
        push_char(out, '\\');
        push_char(out, '"');
    } else if c == '\\' {
        push_char(out, '\\');
        push_char(out, '\\');
    } else if c == '\u{8}' {
        push_char(out, '\\');
        push_char(out, 'b');
    } else if c == '\t' {
        push_char(out, '\\');
        push_char(out, 't');
    } else if c == '\n' {
        push_char(out, '\\');
        push_char(out, 'n');
    } else if c == '\u{c}' {
        push_char(out, '\\');
        push_char(out, 'f');
    } else if c == '\r' {
        push_char(out, '\\');
        push_char(out, 'r');
    } else if (c as u32) < 32 {
        let code: u8 = c as u8;
        push_char(out, '\\');
        push_char(out, 'u');
        push_char(out, '0');
        push_char(out, '0');
        push_char(out, hex_char(code / 16));
        push_char(out, hex_char(code % 16));
    } else {
        push_char(out, c);
    }
    assert(out@ =~= old(out)@ + json_escape_char(c));
}

/// Appends `s` as a JSON string to `out`.
pub fn write_json_string(out: &mut String, s: &str)
    ensures
        final(out)@ == old(out)@ + json_string(s@),
{
    push_char(out, '"');
    for c in it: s.chars()
        invariant
            it.seq() == s@,
            out@ == old(out)@ + seq!['"'] + json_escape(s@.take(it.index() as int)),
    {
        proof {
            let k = it.index() as int;
            assert(s@.take(k + 1).drop_last() == s@.take(k));
            assert(s@.take(k + 1).last() == c);
        }
        push_escaped(out, c);
    }
    proof {
        assert(s@.take(s@.len() as int) == s@);
    }
    push_char(out, '"');
    assert(out@ =~= old(out)@ + json_string(s@));
}

/// Appends an optional string as a JSON value to `out`.
pub fn write_json_value(out: &mut String, v: &Option<String>)
    ensures
        final(out)@ == old(out)@ + json_value(crate::text::opt_view(*v)),
{
    match v {
        Some(s) => write_json_string(out, s.as_str()),
        None => {
            proof {
                reveal_strlit("null");
            }
            push_text(out, "null");
            assert(out@ =~= old(out)@ + seq!['n', 'u', 'l', 'l']);
        },
    }
}

/// `s` as a JSON string.
pub fn to_json_string(s: &str) -> (r: String)
    ensures
        r@ == json_string(s@),
{
    let mut out = String::new();
    write_json_string(&mut out, s);
    assert(out@ =~= json_string(s@));
    out
}

} // verus!
