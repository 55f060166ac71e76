//! Text helpers shared by the whole crate: splitting and joining on a
//! separator character, and decimal notation for identifiers.
//!
//! Every function is specified over `Seq<char>`, the view of a string.

use vstd::prelude::*;

verus! {

/// Appends one character to a string.
///
/// Trusted: stands for `String::push` of the standard library, which adds
/// the given `char` to the end of the string and changes nothing else.
#[verifier::external_body]
pub(crate) fn push_char(s: &mut String, c: char)
    ensures
        final(s)@ == old(s)@.push(c),
{
    s.push(c)
}

/// Whether two string slices hold the same characters.
pub fn same_text(a: &str, b: &str) -> (r: bool)
    ensures
        r == (a@ == b@),
{
    let x = a.to_owned();
    let y = b.to_owned();
    x == y
}

/// Whether `c` occurs in `s`.
pub open spec fn has_char(s: Seq<char>, c: char) -> bool {
    exists|i: int| 0 <= i < s.len() && s[i] == c
}

/// The pieces of `s` between occurrences of `sep`, in order. There is always
/// at least one piece; pieces may be empty.
pub open spec fn split_seq(s: Seq<char>, sep: char) -> Seq<Seq<char>>
    decreases s.len(),
{
    if s.len() == 0 {
        seq![Seq::<char>::empty()]
    } else {
        let front = split_seq(s.drop_last(), sep);
        if s.last() == sep {
            front.push(Seq::<char>::empty())
        } else {
            front.drop_last().push(front.last().push(s.last()))
        }
    }
}

/// The pieces of `parts` written one after another with `sep` between
/// neighbours. No pieces give the empty text.
pub open spec fn join_seq(parts: Seq<Seq<char>>, sep: char) -> Seq<char>
    decreases parts.len(),
{
    if parts.len() == 0 {
        Seq::<char>::empty()
    } else if parts.len() == 1 {
        parts[0]
    } else {
        join_seq(parts.drop_last(), sep).push(sep) + parts.last()
    }
}

/// Splitting always yields at least one piece.
pub proof fn lemma_split_nonempty(s: Seq<char>, sep: char)
    ensures
        split_seq(s, sep).len() >= 1,
    decreases s.len(),
{
    if s.len() > 0 {
        lemma_split_nonempty(s.drop_last(), sep);
    }
}

/// A text without the separator is its own single piece.
pub proof fn lemma_split_plain(s: Seq<char>, sep: char)
    requires
        !has_char(s, sep),
    ensures
        split_seq(s, sep) == seq![s],
    decreases s.len(),
{
    if s.len() > 0 {
        let front = s.drop_last();
        assert forall|i: int| 0 <= i < front.len() implies front[i] != sep by {
            assert(front[i] == s[i]);
        }
        lemma_split_plain(front, sep);
        assert(s.last() == s[s.len() - 1]);
        assert(front.push(s.last()) == s);
        assert(seq![front].drop_last().push(seq![front].last().push(s.last())) == seq![s]);
    } else {
        assert(s == Seq::<char>::empty());
    }
}

/// The first piece of a text is the text up to its first separator.
pub proof fn lemma_split_first(s: Seq<char>, sep: char, k: int)
    requires
        0 <= k <= s.len(),
        !has_char(s.take(k), sep),
        k < s.len() ==> s[k] == sep,
    ensures
        split_seq(s, sep).len() >= 1,
        split_seq(s, sep)[0] == s.take(k),
    decreases s.len(),
{
    lemma_split_nonempty(s, sep);
    if k == s.len() {
        assert(s.take(k) == s);
        lemma_split_plain(s, sep);
    } else {
        let front = s.drop_last();
        assert(front.take(k) == s.take(k));
        if k < front.len() {
            assert(front[k] == s[k]);
        }
        lemma_split_first(front, sep, k);
        lemma_split_nonempty(front, sep);
        let pieces = split_seq(front, sep);
        if s.last() != sep {
            if pieces.len() == 1 {
                // The only piece would then end at a separator-free text,
                // yet `s[k]` is a separator inside `front` or its end.
                assert(k < front.len()) by {
                    if k == front.len() {
                        assert(s[k] == s.last());
                    }
                }
                lemma_split_count(front, sep, k);
            }
        }
    }
}

/// A text that holds a separator splits into at least two pieces.
pub proof fn lemma_split_count(s: Seq<char>, sep: char, k: int)
    requires
        0 <= k < s.len(),
        s[k] == sep,
    ensures
        split_seq(s, sep).len() >= 2,
    decreases s.len(),
{
    let front = s.drop_last();
    lemma_split_nonempty(front, sep);
    if k < front.len() {
        assert(front[k] == s[k]);
        lemma_split_count(front, sep, k);
    }
}

/// Appending a separator and a separator-free text adds exactly that text
/// as one more piece.
pub proof fn lemma_split_append(s: Seq<char>, t: Seq<char>, sep: char)
    requires
        !has_char(t, sep),
    ensures
        split_seq(s.push(sep) + t, sep) == split_seq(s, sep).push(t),
    decreases t.len(),
{
    let whole = s.push(sep) + t;
    if t.len() == 0 {
        assert(whole == s.push(sep));
        assert(whole.drop_last() == s);
        assert(t == Seq::<char>::empty());
    } else {
        let t0 = t.drop_last();
        assert forall|i: int| 0 <= i < t0.len() implies t0[i] != sep by {
            assert(t0[i] == t[i]);
        }
        lemma_split_append(s, t0, sep);
        assert(whole.drop_last() == s.push(sep) + t0);
        assert(whole.last() == t.last());
        assert(t.last() == t[t.len() - 1]);
        assert(t0.push(t.last()) == t);
        let front = split_seq(s, sep).push(t0);
        assert(front.drop_last() == split_seq(s, sep));
        assert(front.last() == t0);
    }
}

/// Splitting undoes joining, as long as there is at least one piece and no
/// piece holds the separator.
pub proof fn lemma_split_join(parts: Seq<Seq<char>>, sep: char)
    requires
        parts.len() >= 1,
        forall|i: int| 0 <= i < parts.len() ==> !has_char(#[trigger] parts[i], sep),
    ensures
        split_seq(join_seq(parts, sep), sep) == parts,
    decreases parts.len(),
{
    if parts.len() == 1 {
        lemma_split_plain(parts[0], sep);
        assert(seq![parts[0]] == parts);
    } else {
        let front = parts.drop_last();
        assert forall|i: int| 0 <= i < front.len() implies !has_char(#[trigger] front[i], sep) by {
            assert(front[i] == parts[i]);
        }
        lemma_split_join(front, sep);
        lemma_split_append(join_seq(front, sep), parts.last(), sep);
        assert(front.push(parts.last()) == parts);
    }
}

/// Splits `s` at every `sep`.
pub fn split(s: &str, sep: char) -> (parts: Vec<String>)
    ensures
        parts.deep_view() == split_seq(s@, sep),
        parts.len() >= 1,
{
    let mut parts: Vec<String> = Vec::new();
    let mut cur = String::new();
    for c in it: s.chars()
        invariant
            it.seq() == s@,
            parts.deep_view().push(cur@) == split_seq(s@.take(it.index() as int), sep),
    {
        let ghost i = it.index() as int;
        let ghost before = parts.deep_view();
        let ghost piece = cur@;
        proof {
            assert(s@.take(i + 1).drop_last() == s@.take(i));
            assert(s@.take(i + 1).last() == c);
            assert(before.push(piece).drop_last() == before);
            assert(before.push(piece).last() == piece);
        }
        if c == sep {
            parts.push(cur);
            cur = String::new();
            assert(parts.deep_view() == before.push(piece));
        } else {
            push_char(&mut cur, c);
            assert(parts.deep_view() == before);
        }
    }
    proof {
        assert(s@.take(s@.len() as int) == s@);
        lemma_split_nonempty(s@, sep);
    }
    let ghost before = parts.deep_view();
    let ghost piece = cur@;
    parts.push(cur);
    assert(parts.deep_view() == before.push(piece));
    parts
}

/// Joins `parts` with `sep` between neighbours.
pub fn join(parts: &Vec<String>, sep: char) -> (s: String)
    ensures
        s@ == join_seq(parts.deep_view(), sep),
{
    let mut out = String::new();
    let mut i: usize = 0;
    while i < parts.len()
        invariant
            i <= parts.len(),
            out@ == join_seq(parts.deep_view().take(i as int), sep),
        decreases parts.len() - i,
    {
        proof {
            let next = parts.deep_view().take(i + 1);
            assert(next.drop_last() == parts.deep_view().take(i as int));
            assert(next.last() == parts[i as int]@);
            if i == 0 {
                assert(next[0] == parts[0]@);
            }
        }
        if i > 0 {
            push_char(&mut out, sep);
        }
        out.append(parts[i].as_str());
        i += 1;
    }
    assert(parts.deep_view().take(parts.len() as int) == parts.deep_view());
    out
}

/// The character of the decimal digit `d`.
pub open spec fn digit_char(d: int) -> char {
    (d + 48) as char
}

/// Whether `c` is one of `0` to `9`.
pub open spec fn is_digit(c: char) -> bool {
    48 <= c as int <= 57
}

/// Whether `s` holds decimal digits only.
pub open spec fn all_digits(s: Seq<char>) -> bool {
    forall|i: int| 0 <= i < s.len() ==> is_digit(#[trigger] s[i])
}

/// The decimal notation of `n`, without sign or leading zeros.
pub open spec fn decimal_seq(n: nat) -> Seq<char>
    decreases n,
{
    if n < 10 {
        seq![digit_char(n as int)]
    } else {
        decimal_seq(n / 10).push(digit_char((n % 10) as int))
    }
}

/// The number that a text of decimal digits denotes; leading zeros count
/// for nothing and the empty text denotes zero.
pub open spec fn digits_value(s: Seq<char>) -> nat
    decreases s.len(),
{
    if s.len() == 0 {
        0
    } else {
        (digits_value(s.drop_last()) * 10 + (s.last() as int - 48)) as nat
    }
}

/// Decimal notation is made of digits, is never empty, and denotes the
/// number it was made from.
pub proof fn lemma_decimal_value(n: nat)
    ensures
        decimal_seq(n).len() >= 1,
        all_digits(decimal_seq(n)),
        digits_value(decimal_seq(n)) == n,
    decreases n,
{
    if n < 10 {
        let s = decimal_seq(n);
        assert(s.drop_last() == Seq::<char>::empty());
        assert(digits_value(s.drop_last()) == 0);
        assert(s.last() == digit_char(n as int));
    } else {
        lemma_decimal_value(n / 10);
        let front = decimal_seq(n / 10);
        let s = decimal_seq(n);
        assert(s.drop_last() == front);
        assert(s.last() == digit_char((n % 10) as int));
        assert forall|i: int| 0 <= i < s.len() implies is_digit(#[trigger] s[i]) by {
            if i < front.len() {
                assert(s[i] == front[i]);
            }
        }
    }
}

/// Different numbers have different decimal notations.
pub proof fn lemma_decimal_injective(a: nat, b: nat)
    requires
        decimal_seq(a) == decimal_seq(b),
    ensures
        a == b,
{
    lemma_decimal_value(a);
    lemma_decimal_value(b);
}

/// The value of a text of digits never shrinks when digits are added.
pub proof fn lemma_digits_prefix(s: Seq<char>, k: int)
    requires
        all_digits(s),
        0 <= k <= s.len(),
    ensures
        digits_value(s.take(k)) <= digits_value(s),
    decreases s.len() - k,
{
    if k < s.len() {
        lemma_digits_prefix(s, k + 1);
        assert(s.take(k + 1).drop_last() == s.take(k));
        assert(is_digit(s[k]));
        assert(s.take(k + 1).last() == s[k]);
    } else {
        assert(s.take(k) == s);
    }
}

/// Writes the decimal notation of `n` at the end of `out`.
fn push_decimal(n: u64, out: &mut String)
    ensures
        final(out)@ == old(out)@ + decimal_seq(n as nat),
    decreases n,
{
    if n >= 10 {
        push_decimal(n / 10, out);
    }
    let d: u8 = (n % 10) as u8;
    let c: char = (48u8 + d) as char;
    push_char(out, c);
    proof {
        if n < 10 {
            assert(old(out)@.push(c) == old(out)@ + seq![c]);
        } else {
            assert((old(out)@ + decimal_seq((n / 10) as nat)).push(c) == old(out)@ + decimal_seq(
                (n / 10) as nat,
            ).push(c));
        }
    }
}

/// The decimal notation of `n`.
pub fn decimal(n: u64) -> (s: String)
    ensures
        s@ == decimal_seq(n as nat),
{
    let mut out = String::new();
    push_decimal(n, &mut out);
    assert(Seq::<char>::empty() + decimal_seq(n as nat) == decimal_seq(n as nat));
    out
}

/// The decimal notation of a signed number: a minus sign before the
/// notation of the magnitude when `n` is negative.
pub open spec fn signed_decimal_seq(n: int) -> Seq<char> {
    if n < 0 {
        seq!['-'] + decimal_seq((-n) as nat)
    } else {
        decimal_seq(n as nat)
    }
}

/// The decimal notation of the signed number `n`.
pub fn signed_decimal(n: i64) -> (s: String)
    ensures
        s@ == signed_decimal_seq(n as int),
{
    let mut out = String::new();
    if n < 0 {
        push_char(&mut out, '-');
        let magnitude: u64 = ((-(n + 1)) as u64) + 1;
        push_decimal(magnitude, &mut out);
        assert(Seq::<char>::empty().push('-') == seq!['-']);
    } else {
        push_decimal(n as u64, &mut out);
        assert(Seq::<char>::empty() + decimal_seq(n as nat) == decimal_seq(n as nat));
    }
    out
}

/// What is left of a number's text once an optional leading plus sign is
/// taken away.
pub open spec fn unsigned_body(s: Seq<char>) -> Seq<char> {
    if s.len() > 0 && s[0] == '+' {
        s.skip(1)
    } else {
        s
    }
}

/// The unsigned number that `s` denotes: an optional plus sign, then one or
/// more decimal digits whose value is at most `max`. Anything else denotes
/// nothing.
pub open spec fn parse_unsigned_seq(s: Seq<char>, max: nat) -> Option<nat> {
    let body = unsigned_body(s);
    if body.len() > 0 && all_digits(body) && digits_value(body) <= max {
        Some(digits_value(body))
    } else {
        None
    }
}

/// The `u64` that `s` denotes, if any.
pub open spec fn parse_u64_seq(s: Seq<char>) -> Option<u64> {
    match parse_unsigned_seq(s, u64::MAX as nat) {
        Some(n) => Some(n as u64),
        None => None,
    }
}

/// Parsing undoes decimal notation.
pub proof fn lemma_parse_decimal(n: u64)
    ensures
        parse_u64_seq(decimal_seq(n as nat)) == Some(n),
{
    lemma_decimal_value(n as nat);
    let s = decimal_seq(n as nat);
    assert(is_digit(s[0]));
}

/// Reads the digits of `chars` from position `start` on. `None` when there
/// is none, when a character is no digit, or when the value exceeds `max`.
fn parse_digits(chars: &Vec<char>, start: usize, max: u64) -> (r: Option<u64>)
    requires
        start <= chars.len(),
        max >= 9,
    ensures
        r == ({
            let body = chars@.skip(start as int);
            if body.len() > 0 && all_digits(body) && digits_value(body) <= max {
                Some(digits_value(body) as u64)
            } else {
                None
            }
        }),
{
    let ghost body = chars@.skip(start as int);
    if start == chars.len() {
        return None;
    }
    let mut value: u64 = 0;
    let mut i: usize = start;
    while i < chars.len()
        invariant
            start <= i <= chars.len(),
            body == chars@.skip(start as int),
            all_digits(body.take(i - start)),
            value == digits_value(body.take(i - start)),
            value <= max,
            max >= 9,
        decreases chars.len() - i,
    {
        let c = chars[i];
        let ghost k = i - start;
        proof {
            assert(body[k] == c);
            assert(body.take(k + 1).drop_last() == body.take(k));
            assert(body.take(k + 1).last() == c);
        }
        if c < '0' || c > '9' {
            assert(!is_digit(body[k]));
            return None;
        }
        let d: u64 = (c as u64) - 48;
        proof {
            assert forall|j: int| 0 <= j < k + 1 implies is_digit(#[trigger] body.take(k + 1)[j]) by {
                if j < k {
                    assert(body.take(k + 1)[j] == body.take(k)[j]);
                }
            }
        }
        if value > (max - d) / 10 {
            proof {
                if all_digits(body) {
                    lemma_digits_prefix(body, k + 1);
                }
            }
            return None;
        }
        value = value * 10 + d;
        i += 1;
    }
    assert(body.take(i - start) == body);
    Some(value)
}

/// The characters of `s`, one by one.
pub fn chars_of(s: &str) -> (v: Vec<char>)
    ensures
        v@ == s@,
{
    let mut v: Vec<char> = Vec::new();
    for c in it: s.chars()
        invariant
            it.seq() == s@,
            v@ == it.seq().take(it.index() as int),
    {
        v.push(c);
    }
    assert(s@.take(s@.len() as int) == s@);
    v
}

/// Reads an unsigned decimal number, as `str::parse::<u64>` does: an
/// optional plus sign, then digits only.
pub fn parse_u64(s: &str) -> (r: Option<u64>)
    ensures
        r == parse_u64_seq(s@),
{
    let chars = chars_of(s);
    let start: usize = if chars.len() > 0 && chars[0] == '+' {
        1
    } else {
        0
    };
    assert(chars@.skip(start as int) == unsigned_body(s@)) by {
        if start == 0 {
            assert(chars@.skip(0) == chars@);
        }
    }
    parse_digits(&chars, start, u64::MAX)
}

/// The `usize` that `s` denotes, if any.
pub open spec fn parse_usize_seq(s: Seq<char>) -> Option<usize> {
    match parse_unsigned_seq(s, usize::MAX as nat) {
        Some(n) => Some(n as usize),
        None => None,
    }
}

/// Reads an unsigned decimal number that fits a `usize`.
pub fn parse_usize(s: &str) -> (r: Option<usize>)
    ensures
        r == parse_usize_seq(s@),
{
    let chars = chars_of(s);
    let start: usize = if chars.len() > 0 && chars[0] == '+' {
        1
    } else {
        0
    };
    assert(chars@.skip(start as int) == unsigned_body(s@)) by {
        if start == 0 {
            assert(chars@.skip(0) == chars@);
        }
    }
    match parse_digits(&chars, start, usize::MAX as u64) {
        Some(n) => Some(n as usize),
        None => None,
    }
}

/// The signed number that `s` denotes: an optional plus or minus sign, then
/// one or more decimal digits, the whole within the range of `i64`.
pub open spec fn parse_i64_seq(s: Seq<char>) -> Option<i64> {
    if s.len() > 0 && s[0] == '-' {
        let body = s.skip(1);
        if body.len() > 0 && all_digits(body) && digits_value(body) <= 0x8000_0000_0000_0000 {
            Some((-(digits_value(body) as int)) as i64)
        } else {
            None
        }
    } else {
        match parse_unsigned_seq(s, i64::MAX as nat) {
            Some(n) => Some(n as i64),
            None => None,
        }
    }
}

/// Reads a signed decimal number, as `str::parse::<i64>` does.
pub fn parse_i64(s: &str) -> (r: Option<i64>)
    ensures
        r == parse_i64_seq(s@),
{
    let chars = chars_of(s);
    if chars.len() > 0 && chars[0] == '-' {
        match parse_digits(&chars, 1, 0x8000_0000_0000_0000) {
            Some(n) => {
                if n == 0x8000_0000_0000_0000 {
                    Some(i64::MIN)
                } else {
                    Some(-(n as i64))
                }
            },
            None => None,
        }
    } else {
        let start: usize = if chars.len() > 0 && chars[0] == '+' {
            1
        } else {
            0
        };
        assert(chars@.skip(start as int) == unsigned_body(s@)) by {
            if start == 0 {
                assert(chars@.skip(0) == chars@);
            }
        }
        match parse_digits(&chars, start, i64::MAX as u64) {
            Some(n) => Some(n as i64),
            None => None,
        }
    }
}

/// Whether `c` is a carriage return, a line feed or a tabulator.
pub open spec fn is_break(c: char) -> bool {
    c == '\r' || c == '\n' || c == '\t'
}

/// `s` on one line: every carriage return, line feed and tabulator gives
/// way to a space.
pub open spec fn single_line_seq(s: Seq<char>) -> Seq<char> {
    Seq::new(s.len(), |i: int| if is_break(s[i]) { ' ' } else { s[i] })
}

/// Puts a text on one line: every carriage return, line feed and tabulator
/// gives way to a space.
pub fn single_line(s: &str) -> (line: String)
    ensures
        line@ == single_line_seq(s@),
{
    let mut line = String::new();
    for c in it: s.chars()
        invariant
            it.seq() == s@,
            line@ == single_line_seq(s@).take(it.index() as int),
    {
        let ghost before = line@;
        if c == '\r' || c == '\n' || c == '\t' {
            push_char(&mut line, ' ');
        } else {
            push_char(&mut line, c);
        }
        assert(line@ == single_line_seq(s@).take(it.index() + 1));
    }
    assert(single_line_seq(s@).take(s@.len() as int) == single_line_seq(s@));
    line
}

/// `s` with every backslash that is followed by the letter `n` read as a
/// line feed, from left to right.
pub open spec fn unescape_seq(s: Seq<char>) -> Seq<char>
    decreases s.len(),
{
    if s.len() == 0 {
        s
    } else if s.len() >= 2 && s[0] == '\\' && s[1] == 'n' {
        seq!['\n'] + unescape_seq(s.skip(2))
    } else {
        seq![s[0]] + unescape_seq(s.skip(1))
    }
}

/// Reads the two characters `\n` as a line feed, wherever they stand.
pub fn unescape_newlines(s: &str) -> (text: String)
    ensures
        text@ == unescape_seq(s@),
{
    let chars = chars_of(s);
    let mut text = String::new();
    let mut i: usize = 0;
    assert(chars@.skip(0) == chars@);
    while i < chars.len()
        invariant
            i <= chars.len(),
            chars@ == s@,
            unescape_seq(s@) == text@ + unescape_seq(chars@.skip(i as int)),
        decreases chars.len() - i,
    {
        let ghost rest = chars@.skip(i as int);
        let ghost before = text@;
        assert(rest[0] == chars@[i as int]);
        if chars[i] == '\\' && i + 1 < chars.len() && chars[i + 1] == 'n' {
            assert(rest[1] == chars@[i + 1]);
            push_char(&mut text, '\n');
            assert(rest.skip(2) == chars@.skip(i + 2));
            assert(before.push('\n') + unescape_seq(rest.skip(2)) == before + (seq!['\n']
                + unescape_seq(rest.skip(2))));
            i += 2;
        } else {
            push_char(&mut text, chars[i]);
            assert(rest.skip(1) == chars@.skip(i + 1));
            assert(before.push(rest[0]) + unescape_seq(rest.skip(1)) == before + (seq![rest[0]]
                + unescape_seq(rest.skip(1))));
            i += 1;
        }
    }
    assert(chars@.skip(chars.len() as int) == Seq::<char>::empty());
    assert(text@ + Seq::<char>::empty() == text@);
    text
}

/// The value of a hexadecimal digit, in either case; nothing for any other
/// character.
pub open spec fn hex_digit(c: char) -> Option<nat> {
    if 48 <= c as int <= 57 {
        Some((c as int - 48) as nat)
    } else if 97 <= c as int <= 102 {
        Some((c as int - 87) as nat)
    } else if 65 <= c as int <= 70 {
        Some((c as int - 55) as nat)
    } else {
        None
    }
}

/// Whether `s` holds hexadecimal digits only.
pub open spec fn all_hex(s: Seq<char>) -> bool {
    forall|i: int| 0 <= i < s.len() ==> hex_digit(#[trigger] s[i]) is Some
}

/// The number that a text of hexadecimal digits denotes.
pub open spec fn hex_value(s: Seq<char>) -> nat
    decreases s.len(),
{
    if s.len() == 0 {
        0
    } else {
        hex_value(s.drop_last()) * 16 + hex_digit(s.last()).unwrap()
    }
}

/// The `u32` that `s` denotes in hexadecimal notation: an optional plus
/// sign, then one or more hexadecimal digits whose value fits.
pub open spec fn parse_hex_seq(s: Seq<char>) -> Option<u32> {
    let body = unsigned_body(s);
    if body.len() > 0 && all_hex(body) && hex_value(body) <= u32::MAX {
        Some(hex_value(body) as u32)
    } else {
        None
    }
}

/// The value of a text of hexadecimal digits never shrinks when digits are
/// added.
proof fn lemma_hex_prefix(s: Seq<char>, k: int)
    requires
        all_hex(s),
        0 <= k <= s.len(),
    ensures
        hex_value(s.take(k)) <= hex_value(s),
    decreases s.len() - k,
{
    if k < s.len() {
        lemma_hex_prefix(s, k + 1);
        assert(s.take(k + 1).drop_last() == s.take(k));
        assert(hex_digit(s[k]) is Some);
        assert(s.take(k + 1).last() == s[k]);
    } else {
        assert(s.take(k) == s);
    }
}

/// Reads a number in hexadecimal notation, as `u32::from_str_radix` does
/// with the radix sixteen.
#[verifier::loop_isolation(false)]
pub fn parse_hex(s: &str) -> (r: Option<u32>)
    ensures
        r == parse_hex_seq(s@),
{
    let chars = chars_of(s);
    let start: usize = if chars.len() > 0 && chars[0] == '+' {
        1
    } else {
        0
    };
    let ghost body = unsigned_body(s@);
    assert(chars@.skip(start as int) == body) by {
        if start == 0 {
            assert(chars@.skip(0) == chars@);
        }
    }
    if start == chars.len() {
        return None;
    }
    let mut value: u32 = 0;
    let mut i: usize = start;
    while i < chars.len()
        invariant
            start <= i <= chars.len(),
            body == chars@.skip(start as int),
            all_hex(body.take(i - start)),
            value == hex_value(body.take(i - start)),
        decreases chars.len() - i,
    {
        let c = chars[i];
        let ghost k = i - start;
        proof {
            assert(body[k] == c);
            assert(body.take(k + 1).drop_last() == body.take(k));
            assert(body.take(k + 1).last() == c);
        }
        let d: u32 = if '0' <= c && c <= '9' {
            (c as u32) - 48
        } else if 'a' <= c && c <= 'f' {
            (c as u32) - 87
        } else if 'A' <= c && c <= 'F' {
            (c as u32) - 55
        } else {
            assert(hex_digit(body[k]) is None);
            return None;
        };
        proof {
            assert forall|j: int| 0 <= j < k + 1 implies hex_digit(
                #[trigger] body.take(k + 1)[j],
            ) is Some by {
                if j < k {
                    assert(body.take(k + 1)[j] == body.take(k)[j]);
                }
            }
        }
        if value > (u32::MAX - d) / 16 {
            proof {
                if all_hex(body) {
                    lemma_hex_prefix(body, k + 1);
                }
            }
            return None;
        }
        value = value * 16 + d;
        i += 1;
    }
    assert(body.take(i - start) == body);
    Some(value)
}

/// The character of the hexadecimal digit `d`, in upper case.
pub open spec fn hex_char(d: int) -> char {
    if d < 10 {
        (d + 48) as char
    } else {
        (d + 55) as char
    }
}

/// A colour as six hexadecimal digits in upper case, the red part first.
pub open spec fn hex6_seq(colour: u32) -> Seq<char> {
    seq![
        hex_char(((colour as int) / 0x10_0000) % 16),
        hex_char(((colour as int) / 0x1_0000) % 16),
        hex_char(((colour as int) / 0x1000) % 16),
        hex_char(((colour as int) / 0x100) % 16),
        hex_char(((colour as int) / 0x10) % 16),
        hex_char((colour as int) % 16),
    ]
}

/// The character of a hexadecimal digit, in upper case.
fn hex_digit_char(d: u32) -> (c: char)
    requires
        d < 16,
    ensures
        c == hex_char(d as int),
{
    if d < 10 {
        (48u8 + (d as u8)) as char
    } else {
        (55u8 + (d as u8)) as char
    }
}

/// Writes a colour of at most twenty-four bits as six hexadecimal digits in
/// upper case.
pub fn hex6(colour: u32) -> (text: String)
    requires
        colour <= 0xFF_FFFF,
    ensures
        text@ == hex6_seq(colour),
{
    let mut text = String::new();
    push_char(&mut text, hex_digit_char((colour / 0x10_0000) % 16));
    push_char(&mut text, hex_digit_char((colour / 0x1_0000) % 16));
    push_char(&mut text, hex_digit_char((colour / 0x1000) % 16));
    push_char(&mut text, hex_digit_char((colour / 0x100) % 16));
    push_char(&mut text, hex_digit_char((colour / 0x10) % 16));
    push_char(&mut text, hex_digit_char(colour % 16));
    assert(text@ =~= hex6_seq(colour));
    text
}

/// What is left of a text once the white space at both ends is taken
/// away.
pub uninterp spec fn trimmed(s: Seq<char>) -> Seq<char>;

/// Takes the white space at both ends of a text away.
///
/// Trusted: stands for `str::trim` of the standard library, which returns
/// a piece of the text it is given; what counts as white space is left to
/// the standard library.
#[verifier::external_body]
pub(crate) fn trim(s: &str) -> (t: &str)
    ensures
        t@ == trimmed(s@),
        t@.len() <= s@.len(),
{
    s.trim()
}

} // verus!
