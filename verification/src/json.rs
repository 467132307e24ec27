//! JSON text as serde_json writes it: strings with their escapes, and
//! objects whose members are all strings.
use vstd::prelude::*;
use vstd::string::*;
use crate::text::push_char;

verus! {


/// The lower-case hexadecimal digit for a value below sixteen.
pub open spec fn hex_digit(d: int) -> char {
    if d == 0 { '0' }
    else if d == 1 { '1' }
    else if d == 2 { '2' }
    else if d == 3 { '3' }
    else if d == 4 { '4' }
    else if d == 5 { '5' }
    else if d == 6 { '6' }
    else if d == 7 { '7' }
    else if d == 8 { '8' }
    else if d == 9 { '9' }
    else if d == 10 { 'a' }
    else if d == 11 { 'b' }
    else if d == 12 { 'c' }
    else if d == 13 { 'd' }
    else if d == 14 { 'e' }
    else { 'f' }
}

/// How one character is written inside a JSON string: the quote and the
/// backslash are escaped, the control characters below U+0020 take their
/// short escape or `\u00XX`, and every other character stands as it is.
pub open spec fn json_escape(c: char) -> Seq<char> {
    if c == '"' {
        seq!['\\', '"']
    } else if c == '\\' {
        seq!['\\', '\\']
    } else if c == '\u{8}' {
        seq!['\\', 'b']
    } else if c == '\t' {
        seq!['\\', 't']
    } else if c == '\n' {
        seq!['\\', 'n']
    } else if c == '\u{c}' {
        seq!['\\', 'f']
    } else if c == '\r' {
        seq!['\\', 'r']
    } else if (c as u32) < 0x20 {
        seq!['\\', 'u', '0', '0', hex_digit((c as u32) as int / 16), hex_digit((c as u32) as int % 16)]
    } else {
        seq![c]
    }
}

/// The escaped characters of a text.
pub open spec fn json_escaped(s: Seq<char>) -> Seq<char>
    decreases s.len(),
{
    if s.len() == 0 {
        Seq::empty()
    } else {
        json_escaped(s.drop_last()) + json_escape(s.last())
    }
}

/// A text written as a JSON string.
pub open spec fn json_quoted(s: Seq<char>) -> Seq<char> {
    seq!['"'] + json_escaped(s) + seq!['"']
}

fn hex_char(d: u32) -> (r: char)
    requires
        d < 16,
    ensures
        r == hex_digit(d as int),
{
    if d == 0 { '0' }
    else if d == 1 { '1' }
    else if d == 2 { '2' }
    else if d == 3 { '3' }
    else if d == 4 { '4' }
    else if d == 5 { '5' }
    else if d == 6 { '6' }
    else if d == 7 { '7' }
    else if d == 8 { '8' }
    else if d == 9 { '9' }
    else if d == 10 { 'a' }
    else if d == 11 { 'b' }
    else if d == 12 { 'c' }
    else if d == 13 { 'd' }
    else if d == 14 { 'e' }
    else { 'f' }
}

fn push_escaped(out: &mut String, c: char)
    ensures
        final(out)@ == old(out)@ + json_escape(c),
{
    let ghost start = out@;
    if c == '"' {
        push_char(out, '\\');
        push_char(out, '"');
    } else if c == '\\' {
        push_char(out, '\\');
        push_char(out, '\\');
    } else if c == '\u{8}' {
        push_char(out, '\\');
        push_char(out, 'b');
    } else if c == '\t' {
        push_char(out, '\\');
        push_char(out, 't');
    } else if c == '\n' {
        push_char(out, '\\');
        push_char(out, 'n');
    } else if c == '\u{c}' {
        push_char(out, '\\');
        push_char(out, 'f');
    } else if c == '\r' {
        push_char(out, '\\');
        push_char(out, 'r');
    } else if (c as u32) < 0x20 {
        let code = c as u32;
        push_char(out, '\\');
        push_char(out, 'u');
        push_char(out, '0');
        push_char(out, '0');
        push_char(out, hex_char(code / 16));
        push_char(out, hex_char(code % 16));
    } else {
        push_char(out, c);
    }
    assert(out@ =~= start + json_escape(c));
}

/// Writes a text as a JSON string, escaping as serde_json does.
pub fn json_quote(s: &str) -> (r: String)
    ensures
        r@ == json_quoted(s@),
{
    let mut out = String::new();
    push_char(&mut out, '"');
    let n = s.unicode_len();
    let mut i: usize = 0;
    while i < n
        invariant
            0 <= i <= n,
            n == s@.len(),
            out@ == seq!['"'] + json_escaped(s@.subrange(0, i as int)),
        decreases n - i,
    {
        let c = s.get_char(i);
        let ghost pre = s@.subrange(0, i + 1);
        assert(pre.drop_last() =~= s@.subrange(0, i as int));
        assert(pre.last() == c);
        push_escaped(&mut out, c);
        assert(out@ =~= seq!['"'] + json_escaped(pre));
        i = i + 1;
    }
    assert(s@.subrange(0, n as int) =~= s@);
    push_char(&mut out, '"');
    assert(out@ =~= json_quoted(s@));
    out
}

/// One member `"key":"value"` of a JSON object.
pub open spec fn json_member(key: Seq<char>, value: Seq<char>) -> Seq<char> {
    json_quoted(key) + seq![':'] + json_quoted(value)
}

/// The members of an object, separated by commas.
pub open spec fn json_members(pairs: Seq<(Seq<char>, Seq<char>)>) -> Seq<char>
    decreases pairs.len(),
{
    if pairs.len() == 0 {
        Seq::empty()
    } else if pairs.len() == 1 {
        json_member(pairs[0].0, pairs[0].1)
    } else {
        json_members(pairs.drop_last()) + seq![','] + json_member(pairs.last().0, pairs.last().1)
    }
}

/// A JSON object with string members, in the given order.
pub open spec fn json_object(pairs: Seq<(Seq<char>, Seq<char>)>) -> Seq<char> {
    seq!['{'] + json_members(pairs) + seq!['}']
}

/// The views of a list of text pairs.
pub open spec fn text_pairs(v: Seq<(String, String)>) -> Seq<(Seq<char>, Seq<char>)> {
    v.map_values(|p: (String, String)| (p.0@, p.1@))
}

/// Writes a JSON object whose members are the given (key, value) pairs.
pub fn json_object_text(pairs: &Vec<(String, String)>) -> (r: String)
    ensures
        r@ == json_object(text_pairs(pairs@)),
{
    let ghost ps = text_pairs(pairs@);
    let mut out = String::new();
    push_char(&mut out, '{');
    let mut i: usize = 0;
    while i < pairs.len()
        invariant
            0 <= i <= pairs@.len(),
            ps == text_pairs(pairs@),
            out@ == seq!['{'] + json_members(ps.subrange(0, i as int)),
        decreases pairs@.len() - i,
    {
        let ghost pre = ps.subrange(0, i + 1);
        assert(pre.drop_last() =~= ps.subrange(0, i as int));
        assert(pre.last() == (pairs@[i as int].0@, pairs@[i as int].1@));
        let ghost before = out@;
        if i > 0 {
            push_char(&mut out, ',');
        }
        let k = json_quote(pairs[i].0.as_str());
        out.append(k.as_str());
        push_char(&mut out, ':');
        let v = json_quote(pairs[i].1.as_str());
        out.append(v.as_str());
        proof {
            if i == 0 {
                assert(pre.len() == 1);
                assert(pre[0] == pre.last());
            }
        }
        assert(out@ =~= seq!['{'] + json_members(pre));
        i = i + 1;
    }
    assert(ps.subrange(0, pairs@.len() as int) =~= ps);
    push_char(&mut out, '}');
    assert(out@ =~= json_object(ps));
    out
}

} // verus!
