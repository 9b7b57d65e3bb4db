//! The JSON text of a pair buffer.
//!
//! A buffer is written as one JSON object in compact form: members in
//! iteration order, separated by commas, each a key and a value written as JSON
//! strings with a colon between them. Inside a string the quotation mark, the
//! reverse solidus and the control characters below U+0020 are escaped; every
//! other character stands for itself.

use vstd::prelude::*;
use crate::text::Text;
use crate::pairs::{Pairs, PairBuffer};

verus! {

/// The lower-case hexadecimal digit for `n`, where `0 <= n < 16`.
pub open spec fn hex_digit(n: int) -> char {
    if n < 10 {
        ('0' as int + n) as char
    } else {
        ('a' as int + (n - 10)) as char
    }
}

/// Whether `c` cannot stand for itself inside a JSON string.
pub open spec fn needs_escape(c: char) -> bool {
    c == '"' || c == '\\' || (c as int) < 0x20
}

/// The JSON spelling of one character inside a string.
pub open spec fn escape_char(c: char) -> Text {
    if c == '"' {
        seq!['\\', '"']
    } else if c == '\\' {
        seq!['\\', '\\']
    } else if c == '\u{8}' {
        seq!['\\', 'b']
    } else if c == '\u{c}' {
        seq!['\\', 'f']
    } else if c == '\n' {
        seq!['\\', 'n']
    } else if c == '\r' {
        seq!['\\', 'r']
    } else if c == '\t' {
        seq!['\\', 't']
    } else if (c as int) < 0x20 {
        seq!['\\', 'u', '0', '0', hex_digit((c as int) / 16), hex_digit((c as int) % 16)]
    } else {
        seq![c]
    }
}

/// The JSON spelling of the characters of `s`, without the enclosing quotes.
pub open spec fn escape(s: Text) -> Text
    decreases s.len(),
{
    if s.len() == 0 {
        Seq::empty()
    } else {
        escape(s.drop_last()) + escape_char(s.last())
    }
}

/// `s` as a JSON string: its escaped characters between quotation marks.
pub open spec fn quoted(s: Text) -> Text {
    seq!['"'] + escape(s) + seq!['"']
}

/// One member of an object: the key, a colon, the value.
pub open spec fn member(entry: (Text, Text)) -> Text {
    quoted(entry.0) + seq![':'] + quoted(entry.1)
}

/// The members of `s` in order, with a comma between neighbours.
pub open spec fn members(s: Pairs) -> Text
    decreases s.len(),
{
    if s.len() == 0 {
        Seq::empty()
    } else if s.len() == 1 {
        member(s[0])
    } else {
        members(s.drop_last()) + seq![','] + member(s.last())
    }
}

/// The JSON object that holds the entries of `s` in order.
pub open spec fn object(s: Pairs) -> Text {
    seq!['{'] + members(s) + seq!['}']
}

/// The value of the hexadecimal digit `c`, if it is one.
pub open spec fn hex_value(c: char) -> Option<int> {
    if '0' as int <= c as int <= '9' as int {
        Some(c as int - '0' as int)
    } else if 'a' as int <= c as int <= 'f' as int {
        Some(c as int - 'a' as int + 10)
    } else if 'A' as int <= c as int <= 'F' as int {
        Some(c as int - 'A' as int + 10)
    } else {
        None
    }
}

/// The character that a reverse solidus followed by `c` stands for, if the
/// two form one of the two-character escapes of JSON.
pub open spec fn short_escape(c: char) -> Option<char> {
    if c == '"' || c == '\\' || c == '/' {
        Some(c)
    } else if c == 'b' {
        Some('\u{8}')
    } else if c == 'f' {
        Some('\u{c}')
    } else if c == 'n' {
        Some('\n')
    } else if c == 'r' {
        Some('\r')
    } else if c == 't' {
        Some('\t')
    } else {
        None
    }
}

/// The code that the four hexadecimal digits at places 2 to 5 of `t` spell,
/// if there are four.
pub open spec fn hex_code(t: Text) -> Option<int> {
    if t.len() >= 6 && hex_value(t[2]) is Some && hex_value(t[3]) is Some && hex_value(t[4]) is Some
        && hex_value(t[5]) is Some {
        Some(
            ((hex_value(t[2])->0 * 16 + hex_value(t[3])->0) * 16 + hex_value(t[4])->0) * 16
                + hex_value(t[5])->0,
        )
    } else {
        None
    }
}

/// The text that the inside of a JSON string `t` stands for: every escape
/// replaced by its character. `None` where `t` is not the inside of a JSON
/// string: it holds a bare quotation mark or control character, or a reverse
/// solidus that begins no escape. An escape that spells half of a surrogate
/// pair is not read either.
pub open spec fn unescape(t: Text) -> Option<Text>
    decreases t.len(),
{
    if t.len() == 0 {
        Some(Seq::empty())
    } else if t[0] == '\\' {
        if t.len() >= 2 && short_escape(t[1]) is Some {
            match unescape(t.skip(2)) {
                Some(rest) => Some(seq![short_escape(t[1])->0] + rest),
                None => None,
            }
        } else if t.len() >= 6 && t[1] == 'u' && hex_code(t) is Some && !(0xD800 <= hex_code(t)->0
            <= 0xDFFF) {
            match unescape(t.skip(6)) {
                Some(rest) => Some(seq![hex_code(t)->0 as char] + rest),
                None => None,
            }
        } else {
            None
        }
    } else if needs_escape(t[0]) {
        None
    } else {
        match unescape(t.skip(1)) {
            Some(rest) => Some(seq![t[0]] + rest),
            None => None,
        }
    }
}

/// The spelling of a text is the spelling of its first character followed by
/// the spelling of the rest.
pub proof fn lemma_escape_from_the_front(s: Text)
    requires
        s.len() > 0,
    ensures
        escape(s) == escape_char(s[0]) + escape(s.drop_first()),
    decreases s.len(),
{
    if s.len() == 1 {
        assert(escape(s.drop_last()) =~= Seq::<char>::empty());
    } else {
        let front = s.drop_last();
        lemma_escape_from_the_front(front);
        assert(front.drop_first() =~= s.drop_first().drop_last());
    }
}

/// A hexadecimal digit spells its own value.
pub proof fn lemma_hex_digit_value(n: int)
    requires
        0 <= n < 16,
    ensures
        hex_value(hex_digit(n)) == Some(n),
{
}

/// Reading the spelling of one character gives that character back, whatever
/// follows it.
pub proof fn lemma_unescape_char(c: char, rest: Text)
    ensures
        unescape(escape_char(c) + rest) == match unescape(rest) {
            Some(r) => Some(seq![c] + r),
            None => None,
        },
{
    let t = escape_char(c) + rest;
    if c == '"' || c == '\\' || c == '\u{8}' || c == '\u{c}' || c == '\n' || c == '\r' || c
        == '\t' {
        assert(t.skip(2) =~= rest);
    } else if (c as int) < 0x20 {
        let high: int = (c as int) / 16;
        let low: int = (c as int) % 16;
        lemma_hex_digit_value(high);
        lemma_hex_digit_value(low);
        assert(t.skip(6) =~= rest);
    } else {
        assert(t.skip(1) =~= rest);
    }
}

/// Whatever text is written into a JSON string, reading the string gives that
/// text back: character for character, digits and all.
pub proof fn lemma_escape_round_trip(s: Text)
    ensures
        unescape(escape(s)) == Some(s),
    decreases s.len(),
{
    if s.len() > 0 {
        lemma_escape_from_the_front(s);
        lemma_escape_round_trip(s.drop_first());
        lemma_unescape_char(s[0], escape(s.drop_first()));
    }
}

/// Two texts with one spelling are one text.
pub proof fn lemma_escape_is_injective(a: Text, b: Text)
    requires
        escape(a) == escape(b),
    ensures
        a == b,
{
    lemma_escape_round_trip(a);
    lemma_escape_round_trip(b);
}

/// An empty buffer is written as an opening and a closing brace.
pub proof fn lemma_empty_object()
    ensures
        object(Seq::empty()) == seq!['{', '}'],
{
}

/// Appends the lower-case hexadecimal digit for `n` to `out`.
fn push_hex_digit(out: &mut String, n: u32)
    requires
        n < 16,
    ensures
        final(out)@ == old(out)@.push(hex_digit(n as int)),
{
    let digit: char = if n < 10 {
        (('0' as u32 + n) as u8) as char
    } else {
        (('a' as u32 + (n - 10)) as u8) as char
    };
    out.push(digit);
}

/// Appends the JSON spelling of `c` to `out`.
pub fn push_escaped_char(out: &mut String, c: char)
    ensures
        final(out)@ == old(out)@ + escape_char(c),
{
    let code: u32 = c as u32;
    if c == '"' {
        out.push('\\');
        out.push('"');
    } else if c == '\\' {
        out.push('\\');
        out.push('\\');
    } else if c == '\u{8}' {
        out.push('\\');
        out.push('b');
    } else if c == '\u{c}' {
        out.push('\\');
        out.push('f');
    } else if c == '\n' {
        out.push('\\');
        out.push('n');
    } else if c == '\r' {
        out.push('\\');
        out.push('r');
    } else if c == '\t' {
        out.push('\\');
        out.push('t');
    } else if code < 0x20 {
        out.push('\\');
        out.push('u');
        out.push('0');
        out.push('0');
        push_hex_digit(out, code / 16);
        push_hex_digit(out, code % 16);
    } else {
        out.push(c);
    }
}

/// Appends `s` as a JSON string to `out`.
pub fn push_quoted(out: &mut String, s: &String)
    ensures
        final(out)@ == old(out)@ + quoted(s@),
{
    out.push('"');
    for c in iter: s.as_str().chars()
        invariant
            iter.seq() == s@,
            out@ == old(out)@ + seq!['"'] + escape(s@.take(iter.index() as int)),
    {
        let ghost i = iter.index() as int;
        assert(s@.take(i + 1).drop_last() =~= s@.take(i));
        push_escaped_char(out, c);
    }
    assert(s@.take(s@.len() as int) =~= s@);
    out.push('"');
}

/// The JSON object that holds the entries of `pairs` in iteration order.
pub fn serialize(pairs: &PairBuffer) -> (json: String)
    ensures
        json@ == object(pairs@),
{
    let mut out = String::new();
    out.push('{');
    let n: usize = pairs.len();
    let mut i: usize = 0;
    while i < n
        invariant
            n == pairs@.len(),
            i <= n,
            out@ == seq!['{'] + members(pairs@.take(i as int)),
        decreases n - i,
    {
        assert(pairs@.take(i + 1).drop_last() =~= pairs@.take(i as int));
        if i > 0 {
            out.push(',');
        }
        push_quoted(&mut out, pairs.key_at(i));
        out.push(':');
        push_quoted(&mut out, pairs.value_at(i));
        i += 1;
    }
    assert(pairs@.take(n as int) =~= pairs@);
    out.push('}');
    out
}

} // verus!
