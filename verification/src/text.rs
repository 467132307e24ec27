//! Text helpers: decimal numbers, comma-separated lists, and the Unicode
//! case and whitespace rules that std applies.
use vstd::prelude::*;
use vstd::string::*;

verus! {

/// What std's `str::to_uppercase` gives for a text.
pub uninterp spec fn uppercase_of(s: Seq<char>) -> Seq<char>;

/// What std's `str::trim` gives for a text.
pub uninterp spec fn trimmed_of(s: Seq<char>) -> Seq<char>;

/// Trusted: std's `str::to_uppercase` (Unicode upper case, locale-free);
/// named by `uppercase_of`.
#[verifier::external_body]
pub(crate) fn to_uppercase_text(s: &str) -> (r: String)
    ensures
        r@ == uppercase_of(s@),
{
    s.to_uppercase()
}

/// Trusted: std's `str::trim` (leading and trailing Unicode white space
/// removed), copied into a `String`; named by `trimmed_of`.
#[verifier::external_body]
pub(crate) fn trim_text(s: &str) -> (r: String)
    ensures
        r@ == trimmed_of(s@),
{
    s.trim().to_string()
}

/// Trusted: std's `String::push`, which appends one character.
#[verifier::external_body]
pub(crate) fn push_char(s: &mut String, c: char)
    ensures
        final(s)@ == old(s)@.push(c),
{
    s.push(c);
}

/// The ASCII digit for a value below ten.
pub open spec fn digit_char(d: nat) -> char {
    if d == 0 { '0' }
    else if d == 1 { '1' }
    else if d == 2 { '2' }
    else if d == 3 { '3' }
    else if d == 4 { '4' }
    else if d == 5 { '5' }
    else if d == 6 { '6' }
    else if d == 7 { '7' }
    else if d == 8 { '8' }
    else { '9' }
}

/// The decimal text of a natural number, as `u64::to_string` writes it.
pub open spec fn decimal_of(n: nat) -> Seq<char>
    decreases n,
{
    if n < 10 {
        seq![digit_char(n)]
    } else {
        decimal_of(n / 10).push(digit_char(n % 10))
    }
}

/// The decimal text of an integer, as `i32::to_string` writes it.
pub open spec fn signed_decimal_of(n: int) -> Seq<char> {
    if n < 0 {
        seq!['-'] + decimal_of((-n) as nat)
    } else {
        decimal_of(n as nat)
    }
}

pub open spec fn is_digit(c: char) -> bool {
    '0' <= c <= '9'
}

pub open spec fn digit_value(c: char) -> nat {
    (c as u32 - '0' as u32) as nat
}

/// The value of a text of ASCII digits.
pub open spec fn digits_value(s: Seq<char>) -> nat
    decreases s.len(),
{
    if s.len() == 0 {
        0
    } else {
        digits_value(s.drop_last()) * 10 + digit_value(s.last())
    }
}

/// The text after an optional leading `+`.
pub open spec fn unsigned_digits(s: Seq<char>) -> Seq<char> {
    if s.len() > 0 && s[0] == '+' { s.drop_first() } else { s }
}

pub open spec fn all_digits(s: Seq<char>) -> bool {
    forall|i: int| 0 <= i < s.len() ==> is_digit(#[trigger] s[i])
}

/// What std's `parse` gives for an unsigned integer type whose largest value
/// is `max`: an optional `+` followed by one or more ASCII digits, whose value
/// does not exceed `max`.
pub open spec fn parse_unsigned_spec(s: Seq<char>, max: nat) -> Option<nat> {
    let digits = unsigned_digits(s);
    if digits.len() == 0 || !all_digits(digits) {
        None
    } else if digits_value(digits) > max {
        None
    } else {
        Some(digits_value(digits))
    }
}

proof fn lemma_digit_char_value(d: nat)
    requires
        d < 10,
    ensures
        is_digit(digit_char(d)),
        digit_value(digit_char(d)) == d,
{
}

proof fn lemma_digits_value_grows(s: Seq<char>, i: int)
    requires
        0 <= i <= s.len(),
        forall|j: int| 0 <= j < s.len() ==> is_digit(#[trigger] s[j]),
    ensures
        digits_value(s.subrange(0, i)) <= digits_value(s),
    decreases s.len() - i,
{
    if i < s.len() {
        lemma_digits_value_grows(s, i + 1);
        let t = s.subrange(0, i + 1);
        assert(t.drop_last() =~= s.subrange(0, i));
    } else {
        assert(s.subrange(0, i) =~= s);
    }
}

/// The decimal text of `n`.
pub fn u64_to_decimal(n: u64) -> (r: String)
    ensures
        r@ == decimal_of(n as nat),
{
    let mut rev: Vec<char> = Vec::new();
    let mut m: u64 = n;
    while m >= 10
        invariant
            decimal_of(n as nat) == decimal_of(m as nat) + rev@.reverse(),
        decreases m,
    {
        let d = (m % 10) as u8;
        let c = digit_to_char(d);
        proof {
            assert(decimal_of(m as nat) == decimal_of((m / 10) as nat).push(c));
            assert(rev@.push(c).reverse() =~= seq![c] + rev@.reverse());
            assert(decimal_of(m as nat) + rev@.reverse() =~= decimal_of((m / 10) as nat) + rev@.push(c).reverse());
        }
        rev.push(c);
        m = m / 10;
    }
    let mut r = String::new();
    let first = digit_to_char(m as u8);
    push_char(&mut r, first);
    assert(r@ =~= decimal_of(m as nat));
    let mut i: usize = rev.len();
    while i > 0
        invariant
            0 <= i <= rev.len(),
            decimal_of(n as nat) == r@ + rev@.subrange(0, i as int).reverse(),
        decreases i,
    {
        i = i - 1;
        let c = rev[i];
        proof {
            assert(rev@.subrange(0, i + 1).reverse() =~= seq![c] + rev@.subrange(0, i as int).reverse());
            assert(r@ + rev@.subrange(0, i + 1).reverse() =~= r@.push(c) + rev@.subrange(0, i as int).reverse());
        }
        push_char(&mut r, c);
    }
    assert(rev@.subrange(0, 0).reverse() =~= Seq::<char>::empty());
    assert(r@ + Seq::<char>::empty() =~= r@);
    r
}

fn digit_to_char(d: u8) -> (c: char)
    requires
        d < 10,
    ensures
        c == digit_char(d as nat),
{
    if d == 0 { '0' }
    else if d == 1 { '1' }
    else if d == 2 { '2' }
    else if d == 3 { '3' }
    else if d == 4 { '4' }
    else if d == 5 { '5' }
    else if d == 6 { '6' }
    else if d == 7 { '7' }
    else if d == 8 { '8' }
    else { '9' }
}

/// The decimal text of `n`, with a leading `-` when it is negative.
pub fn i32_to_decimal(n: i32) -> (r: String)
    ensures
        r@ == signed_decimal_of(n as int),
{
    if n < 0 {
        let magnitude: u64 = (0i64 - n as i64) as u64;
        let digits = u64_to_decimal(magnitude);
        let mut r = String::new();
        push_char(&mut r, '-');
        r.append(digits.as_str());
        assert(r@ =~= seq!['-'] + decimal_of((-(n as int)) as nat));
        r
    } else {
        u64_to_decimal(n as u64)
    }
}

/// Parses an unsigned decimal number no larger than `max`, as std's `parse`
/// does for an unsigned integer type whose largest value is `max`.
pub fn parse_unsigned(s: &str, max: u64) -> (r: Option<u64>)
    ensures
        r matches Some(v) ==> parse_unsigned_spec(s@, max as nat) == Some(v as nat),
        r is None ==> parse_unsigned_spec(s@, max as nat) is None,
{
    let n = s.unicode_len();
    let mut start: usize = 0;
    if n > 0 && s.get_char(0) == '+' {
        start = 1;
    }
    let ghost digits = unsigned_digits(s@);
    assert(digits =~= s@.subrange(start as int, n as int));
    if start >= n {
        assert(digits.len() == 0);
        return None;
    }
    let mut value: u64 = 0;
    let mut i: usize = start;
    while i < n
        invariant
            start <= i <= n,
            n == s@.len(),
            digits =~= s@.subrange(start as int, n as int),
            digits == unsigned_digits(s@),
            forall|j: int| start <= j < i ==> is_digit(#[trigger] s@[j]),
            value as nat == digits_value(s@.subrange(start as int, i as int)),
            value <= max,
        decreases n - i,
    {
        let c = s.get_char(i);
        if !('0' <= c && c <= '9') {
            assert(!is_digit(digits[i - start]));
            assert(!all_digits(digits));
            return None;
        }
        let d: u64 = (c as u32 - '0' as u32) as u64;
        let ghost prefix = s@.subrange(start as int, i + 1);
        assert(prefix.drop_last() =~= s@.subrange(start as int, i as int));
        assert(digits_value(prefix) == value * 10 + d);
        if d > max || value > (max - d) / 10 {
            proof {
                if d <= max {
                    assert(value * 10 + d > max) by (nonlinear_arith)
                        requires
                            value > (max - d) / 10,
                            d <= max,
                    ;
                }
                if all_digits(digits) {
                    lemma_digits_value_grows(digits, i + 1 - start);
                    assert(digits.subrange(0, i + 1 - start) =~= prefix);
                }
            }
            return None;
        }
        value = value * 10 + d;
        i = i + 1;
    }
    assert(s@.subrange(start as int, n as int) =~= digits);
    Some(value)
}

/// The pieces of a text between commas, in order, as `str::split(',')` gives
/// them.
pub open spec fn comma_pieces(s: Seq<char>) -> Seq<Seq<char>>
    decreases s.len(),
{
    if s.len() == 0 {
        seq![Seq::<char>::empty()]
    } else {
        let rest = comma_pieces(s.drop_last());
        if s.last() == ',' {
            rest.push(Seq::<char>::empty())
        } else {
            rest.update(rest.len() - 1, rest.last().push(s.last()))
        }
    }
}

/// The pieces of a text between commas, each trimmed, with the empty ones
/// left out: the symbol lists of the configuration.
pub open spec fn trimmed_nonempty(pieces: Seq<Seq<char>>) -> Seq<Seq<char>>
    decreases pieces.len(),
{
    if pieces.len() == 0 {
        Seq::empty()
    } else {
        let rest = trimmed_nonempty(pieces.drop_last());
        let t = trimmed_of(pieces.last());
        if t.len() > 0 { rest.push(t) } else { rest }
    }
}

pub open spec fn list_of(s: Seq<char>) -> Seq<Seq<char>> {
    trimmed_nonempty(comma_pieces(s))
}

/// Splits a text at every comma, as `str::split(',')` does.
pub fn split_commas(s: &str) -> (r: Vec<String>)
    ensures
        texts_of(r@) == comma_pieces(s@),
{
    let n = s.unicode_len();
    let mut done: Vec<String> = Vec::new();
    let mut current = String::new();
    let mut i: usize = 0;
    assert(s@.subrange(0, 0) =~= Seq::<char>::empty());
    assert(texts_of(done@).push(current@) =~= comma_pieces(Seq::<char>::empty()));
    while i < n
        invariant
            0 <= i <= n,
            n == s@.len(),
            texts_of(done@).push(current@) == comma_pieces(s@.subrange(0, i as int)),
        decreases n - i,
    {
        let c = s.get_char(i);
        let ghost prefix = s@.subrange(0, i + 1);
        assert(prefix.drop_last() =~= s@.subrange(0, i as int));
        assert(prefix.last() == c);
        if c == ',' {
            let piece = current;
            current = String::new();
            proof {
                assert(texts_of(done@.push(piece)) =~= texts_of(done@).push(piece@));
            }
            done.push(piece);
            assert(texts_of(done@).push(current@) =~= comma_pieces(prefix));
        } else {
            let ghost before = current@;
            push_char(&mut current, c);
            assert(texts_of(done@).push(current@) =~= comma_pieces(prefix));
        }
        i = i + 1;
    }
    assert(s@.subrange(0, n as int) =~= s@);
    let ghost last = current@;
    done.push(current);
    assert(texts_of(done@) =~= comma_pieces(s@));
    done
}

/// The views of a list of strings.
pub open spec fn texts_of(v: Seq<String>) -> Seq<Seq<char>> {
    v.map_values(|x: String| x@)
}

/// The entries of a comma-separated list, trimmed, with empty entries left
/// out (`split(',')`, `trim()`, non-empty filter).
pub fn parse_list(s: &str) -> (r: Vec<String>)
    ensures
        texts_of(r@) == list_of(s@),
{
    let pieces = split_commas(s);
    let mut out: Vec<String> = Vec::new();
    let mut i: usize = 0;
    while i < pieces.len()
        invariant
            0 <= i <= pieces.len(),
            texts_of(pieces@) == comma_pieces(s@),
            texts_of(out@) == trimmed_nonempty(texts_of(pieces@).subrange(0, i as int)),
        decreases pieces.len() - i,
    {
        let t = trim_text(pieces[i].as_str());
        let ghost pre = texts_of(pieces@).subrange(0, i + 1);
        assert(pre.drop_last() =~= texts_of(pieces@).subrange(0, i as int));
        assert(pre.last() == pieces@[i as int]@);
        if t.unicode_len() > 0 {
            proof {
                assert(texts_of(out@.push(t)) =~= texts_of(out@).push(t@));
            }
            out.push(t);
        }
        i = i + 1;
    }
    assert(texts_of(pieces@).subrange(0, pieces@.len() as int) =~= texts_of(pieces@));
    out
}

/// Whether two texts are equal, character by character.
pub fn same_text(a: &str, b: &str) -> (r: bool)
    ensures
        r == (a@ == b@),
{
    let n = a.unicode_len();
    if n != b.unicode_len() {
        return false;
    }
    let mut i: usize = 0;
    while i < n
        invariant
            0 <= i <= n,
            n == a@.len(),
            n == b@.len(),
            forall|j: int| 0 <= j < i ==> a@[j] == b@[j],
        decreases n - i,
    {
        if a.get_char(i) != b.get_char(i) {
            return false;
        }
        i = i + 1;
    }
    assert(a@ =~= b@);
    true
}

/// Whether `s` begins with `prefix`.
pub fn begins_with(s: &str, prefix: &str) -> (r: bool)
    ensures
        r == (prefix@.len() <= s@.len() && s@.subrange(0, prefix@.len() as int) == prefix@),
{
    let n = prefix.unicode_len();
    if n > s.unicode_len() {
        return false;
    }
    let mut i: usize = 0;
    while i < n
        invariant
            0 <= i <= n,
            n == prefix@.len(),
            n <= s@.len(),
            forall|j: int| 0 <= j < i ==> s@[j] == prefix@[j],
        decreases n - i,
    {
        if s.get_char(i) != prefix.get_char(i) {
            assert(s@.subrange(0, n as int)[i as int] != prefix@[i as int]);
            return false;
        }
        i = i + 1;
    }
    assert(s@.subrange(0, n as int) =~= prefix@);
    true
}

/// The text after its first `n` characters.
pub fn text_after(s: &str, n: usize) -> (r: String)
    requires
        n <= s@.len(),
    ensures
        r@ == s@.subrange(n as int, s@.len() as int),
{
    let len = s.unicode_len();
    let part = s.substring_char(n, len);
    String::from_str(part)
}

/// Whether `needle` occurs in `s` at position `i`.
pub open spec fn occurs_at(s: Seq<char>, needle: Seq<char>, i: int) -> bool {
    0 <= i && i + needle.len() <= s.len() && s.subrange(i, i + needle.len()) == needle
}

/// Whether `needle` occurs in `s`.
pub fn contains_text(s: &str, needle: &str) -> (r: bool)
    ensures
        r == exists|i: int| occurs_at(s@, needle@, i),
{
    let n = s.unicode_len();
    let m = needle.unicode_len();
    if m > n {
        proof {
            assert forall|i: int| !occurs_at(s@, needle@, i) by {}
        }
        return false;
    }
    let mut i: usize = 0;
    while i <= n - m
        invariant
            n == s@.len(),
            m == needle@.len(),
            m <= n,
            0 <= i <= n - m + 1,
            forall|k: int| 0 <= k < i ==> !occurs_at(s@, needle@, k),
        decreases n - m + 1 - i,
    {
        let mut j: usize = 0;
        let mut same = true;
        while j < m
            invariant
                n == s@.len(),
                m == needle@.len(),
                i + m <= n,
                0 <= j <= m,
                same == forall|k: int| 0 <= k < j ==> s@[i + k] == needle@[k],
            decreases m - j,
        {
            if s.get_char(i + j) != needle.get_char(j) {
                same = false;
            }
            j = j + 1;
        }
        if same {
            assert(s@.subrange(i as int, i + m) =~= needle@);
            assert(occurs_at(s@, needle@, i as int));
            return true;
        }
        assert(!occurs_at(s@, needle@, i as int)) by {
            let k = choose|k: int| 0 <= k < m && s@[i + k] != needle@[k];
            assert(s@.subrange(i as int, i + m)[k] != needle@[k]);
        }
        i = i + 1;
    }
    proof {
        assert forall|k: int| !occurs_at(s@, needle@, k) by {
            if 0 <= k && k < i {
            }
        }
    }
    false
}

/// The number of bytes of a character in UTF-8.
pub open spec fn utf8_width(c: char) -> nat {
    if (c as u32) < 0x80 { 1 } else if (c as u32) < 0x800 { 2 } else if (c as u32) < 0x10000 { 3 } else { 4 }
}

/// The number of bytes of a text in UTF-8, as `str::len` counts them.
pub open spec fn utf8_len(s: Seq<char>) -> nat
    decreases s.len(),
{
    if s.len() == 0 { 0 } else { utf8_len(s.drop_last()) + utf8_width(s.last()) }
}

/// The number of bytes of a text in UTF-8, counted up to `limit + 1`: the
/// exact count when it is at most `limit`, and `limit + 1` otherwise.
pub fn utf8_len_capped(s: &str, limit: usize) -> (r: usize)
    requires
        limit < usize::MAX,
    ensures
        utf8_len(s@) <= limit ==> r == utf8_len(s@),
        utf8_len(s@) > limit ==> r == limit + 1,
{
    let n = s.unicode_len();
    let mut total: usize = 0;
    let mut i: usize = 0;
    while i < n
        invariant
            n == s@.len(),
            0 <= i <= n,
            limit < usize::MAX,
            total == utf8_len(s@.subrange(0, i as int)),
            total <= limit,
        decreases n - i,
    {
        let c = s.get_char(i);
        let code = c as u32;
        let w: usize = if code < 0x80 { 1 } else if code < 0x800 { 2 } else if code < 0x10000 { 3 } else { 4 };
        let ghost pre = s@.subrange(0, i + 1);
        assert(pre.drop_last() =~= s@.subrange(0, i as int));
        assert(pre.last() == c);
        if w > limit - total {
            proof {
                lemma_utf8_len_grows(s@, i + 1);
            }
            return limit + 1;
        }
        total = total + w;
        i = i + 1;
    }
    assert(s@.subrange(0, n as int) =~= s@);
    total
}

proof fn lemma_utf8_len_grows(s: Seq<char>, i: int)
    requires
        0 <= i <= s.len(),
    ensures
        utf8_len(s.subrange(0, i)) <= utf8_len(s),
    decreases s.len() - i,
{
    if i < s.len() {
        lemma_utf8_len_grows(s, i + 1);
        assert(s.subrange(0, i + 1).drop_last() =~= s.subrange(0, i));
    } else {
        assert(s.subrange(0, i) =~= s);
    }
}

} // verus!
