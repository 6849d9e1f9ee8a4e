//! Building blocks for textual reports: decimal and hexadecimal numerals,
//! padding, prefixes and truncation, each with an exact specification over
//! sequences of characters.

use vstd::prelude::*;
use vstd::string::*;

verus! {

/// The character of a single digit in bases up to sixteen (lower case).
pub open spec fn digit_char(d: nat) -> char {
    if d == 0 {
        '0'
    } else if d == 1 {
        '1'
    } else if d == 2 {
        '2'
    } else if d == 3 {
        '3'
    } else if d == 4 {
        '4'
    } else if d == 5 {
        '5'
    } else if d == 6 {
        '6'
    } else if d == 7 {
        '7'
    } else if d == 8 {
        '8'
    } else if d == 9 {
        '9'
    } else if d == 10 {
        'a'
    } else if d == 11 {
        'b'
    } else if d == 12 {
        'c'
    } else if d == 13 {
        'd'
    } else if d == 14 {
        'e'
    } else {
        'f'
    }
}

/// The decimal numeral of `n`, without leading zeros (`0` is "0").
pub open spec fn decimal(n: nat) -> Seq<char>
    decreases n,
{
    if n < 10 {
        seq![digit_char(n)]
    } else {
        decimal(n / 10).push(digit_char(n % 10))
    }
}

/// The lower-case hexadecimal numeral of `n`, without leading zeros.
pub open spec fn hexadecimal(n: nat) -> Seq<char>
    decreases n,
{
    if n < 16 {
        seq![digit_char(n)]
    } else {
        hexadecimal(n / 16).push(digit_char(n % 16))
    }
}

/// The decimal numeral of a possibly negative integer, with a leading minus
/// sign for negative values.
pub open spec fn signed_decimal(n: int) -> Seq<char> {
    if n < 0 {
        seq!['-'] + decimal((-n) as nat)
    } else {
        decimal(n as nat)
    }
}

/// `count` copies of the character `c`.
pub open spec fn repeated(c: char, count: nat) -> Seq<char> {
    Seq::new(count, |i: int| c)
}

/// `t` followed by as many spaces as it takes to reach `width` characters;
/// longer texts are left alone.
pub open spec fn padded_right(t: Seq<char>, width: nat) -> Seq<char> {
    if t.len() < width {
        t + repeated(' ', (width - t.len()) as nat)
    } else {
        t
    }
}

/// `t` preceded by as many zeros as it takes to reach `width` characters;
/// longer texts are left alone.
pub open spec fn zero_padded(t: Seq<char>, width: nat) -> Seq<char> {
    if t.len() < width {
        repeated('0', (width - t.len()) as nat) + t
    } else {
        t
    }
}

/// Appends one digit (base sixteen at most) to `out`.
pub fn push_digit(out: &mut String, d: u64)
    requires
        d < 16,
    ensures
        final(out)@ == old(out)@.push(digit_char(d as nat)),
{
    let ghost before = out@;
    proof {
        reveal_strlit("0");
        reveal_strlit("1");
        reveal_strlit("2");
        reveal_strlit("3");
        reveal_strlit("4");
        reveal_strlit("5");
        reveal_strlit("6");
        reveal_strlit("7");
        reveal_strlit("8");
        reveal_strlit("9");
        reveal_strlit("a");
        reveal_strlit("b");
        reveal_strlit("c");
        reveal_strlit("d");
        reveal_strlit("e");
        reveal_strlit("f");
    }
    let lit: &str = if d == 0 {
        "0"
    } else if d == 1 {
        "1"
    } else if d == 2 {
        "2"
    } else if d == 3 {
        "3"
    } else if d == 4 {
        "4"
    } else if d == 5 {
        "5"
    } else if d == 6 {
        "6"
    } else if d == 7 {
        "7"
    } else if d == 8 {
        "8"
    } else if d == 9 {
        "9"
    } else if d == 10 {
        "a"
    } else if d == 11 {
        "b"
    } else if d == 12 {
        "c"
    } else if d == 13 {
        "d"
    } else if d == 14 {
        "e"
    } else {
        "f"
    };
    assert(lit@ =~= seq![digit_char(d as nat)]);
    out.append(lit);
    assert(out@ =~= before.push(digit_char(d as nat)));
}

/// Appends the decimal numeral of `n` to `out`.
pub fn push_decimal(out: &mut String, n: u64)
    ensures
        final(out)@ == old(out)@ + decimal(n as nat),
    decreases n,
{
    let ghost before = out@;
    if n < 10 {
        push_digit(out, n);
        assert(out@ =~= before + decimal(n as nat));
    } else {
        push_decimal(out, n / 10);
        push_digit(out, n % 10);
        assert(out@ =~= before + decimal(n as nat));
    }
}

/// Appends the lower-case hexadecimal numeral of `n` to `out`.
pub fn push_hexadecimal(out: &mut String, n: u64)
    ensures
        final(out)@ == old(out)@ + hexadecimal(n as nat),
    decreases n,
{
    let ghost before = out@;
    if n < 16 {
        push_digit(out, n);
        assert(out@ =~= before + hexadecimal(n as nat));
    } else {
        push_hexadecimal(out, n / 16);
        push_digit(out, n % 16);
        assert(out@ =~= before + hexadecimal(n as nat));
    }
}

/// The lower-case hexadecimal numeral of `n` as a fresh string.
pub fn hexadecimal_string(n: u64) -> (out: String)
    ensures
        out@ == hexadecimal(n as nat),
{
    let mut out = String::new();
    push_hexadecimal(&mut out, n);
    assert(out@ =~= hexadecimal(n as nat));
    out
}

/// The decimal numeral of `n` as a fresh string.
pub fn decimal_string(n: u64) -> (out: String)
    ensures
        out@ == decimal(n as nat),
{
    let mut out = String::new();
    push_decimal(&mut out, n);
    assert(out@ =~= decimal(n as nat));
    out
}

/// Appends the decimal numeral of a possibly negative integer to `out`.
pub fn push_signed_decimal(out: &mut String, n: i64)
    ensures
        final(out)@ == old(out)@ + signed_decimal(n as int),
{
    let ghost before = out@;
    if n < 0 {
        proof {
            reveal_strlit("-");
        }
        out.append("-");
        let magnitude: u64 = if n == i64::MIN {
            9223372036854775808u64
        } else {
            (-n) as u64
        };
        push_decimal(out, magnitude);
        assert(out@ =~= before + signed_decimal(n as int));
    } else {
        push_decimal(out, n as u64);
    }
}

/// A line that is only there when its value is: the prefix, the value, the
/// suffix; nothing without a value.
pub open spec fn optional_line(prefix: Seq<char>, value: Option<Seq<char>>, suffix: Seq<char>) -> Seq<
    char,
> {
    match value {
        Some(v) => prefix + v + suffix,
        None => Seq::empty(),
    }
}

/// Appends [`optional_line`].
pub fn push_optional_line(out: &mut String, prefix: &str, value: &Option<String>, suffix: &str)
    ensures
        final(out)@ == old(out)@ + optional_line(prefix@, option_text(*value), suffix@),
{
    let ghost before = out@;
    match value {
        Some(v) => {
            out.append(prefix);
            out.append(v.as_str());
            out.append(suffix);
        },
        None => {},
    }
    assert(out@ =~= before + optional_line(prefix@, option_text(*value), suffix@));
}

/// Whether `s` begins with `prefix`.
pub open spec fn starts_with(s: Seq<char>, prefix: Seq<char>) -> bool {
    prefix.len() <= s.len() && s.take(prefix.len() as int) == prefix
}

/// Whether two texts are the same, character by character.
pub fn same_text(a: &str, b: &str) -> (same: bool)
    ensures
        same == (a@ == b@),
{
    let left = String::from_str(a);
    let right = String::from_str(b);
    left == right
}

/// Computes [`starts_with`].
pub fn has_prefix(s: &str, prefix: &str) -> (found: bool)
    ensures
        found == starts_with(s@, prefix@),
{
    let wanted = prefix.unicode_len();
    if s.unicode_len() < wanted {
        false
    } else {
        same_text(s.substring_char(0, wanted), prefix)
    }
}

/// Appends `count` copies of a one-character text.
pub fn push_repeated(out: &mut String, unit: &str, count: usize)
    requires
        unit@.len() == 1,
    ensures
        final(out)@ == old(out)@ + repeated(unit@[0], count as nat),
{
    let ghost before = out@;
    let mut i: usize = 0;
    assert(out@ =~= before + repeated(unit@[0], 0));
    while i < count
        invariant
            i <= count,
            unit@.len() == 1,
            out@ == before + repeated(unit@[0], i as nat),
        decreases count - i,
    {
        out.append(unit);
        assert(out@ =~= before + repeated(unit@[0], (i + 1) as nat));
        i += 1;
    }
}

/// Appends `t`, padded with spaces on the right to `width` characters.
pub fn push_padded_right(out: &mut String, t: &str, width: usize)
    ensures
        final(out)@ == old(out)@ + padded_right(t@, width as nat),
{
    let ghost before = out@;
    let n = t.unicode_len();
    out.append(t);
    if n < width {
        proof {
            reveal_strlit(" ");
        }
        push_repeated(out, " ", width - n);
        assert(out@ =~= before + padded_right(t@, width as nat));
    }
}

/// Appends `t`, padded with zeros on the left to `width` characters.
pub fn push_zero_padded(out: &mut String, t: &str, width: usize)
    ensures
        final(out)@ == old(out)@ + zero_padded(t@, width as nat),
{
    let ghost before = out@;
    let n = t.unicode_len();
    if n < width {
        proof {
            reveal_strlit("0");
        }
        push_repeated(out, "0", width - n);
    }
    out.append(t);
    assert(out@ =~= before + zero_padded(t@, width as nat));
}

/// Whether `needle` occurs in `hay` as a run of consecutive characters.
pub open spec fn contains_text(hay: Seq<char>, needle: Seq<char>) -> bool {
    exists|i: int|
        0 <= i && i + needle.len() <= hay.len() && #[trigger] hay.subrange(
            i,
            i + needle.len(),
        ) == needle
}

/// Computes [`contains_text`].
pub fn text_contains(hay: &str, needle: &str) -> (found: bool)
    ensures
        found == contains_text(hay@, needle@),
{
    let n = hay.unicode_len();
    let m = needle.unicode_len();
    if m > n {
        return false;
    }
    if m == 0 {
        assert(hay@.subrange(0int, 0int + needle@.len()) =~= needle@);
        return true;
    }
    let mut i: usize = 0;
    while i <= n - m
        invariant
            0 < m <= n,
            n == hay@.len(),
            m == needle@.len(),
            i <= n - m + 1,
            forall|k: int| 0 <= k < i ==> #[trigger] hay@.subrange(k, k + m) != needle@,
        decreases n - m + 1 - i,
    {
        if same_text(hay.substring_char(i, i + m), needle) {
            return true;
        }
        i += 1;
    }
    false
}

/// The parts with `sep` between each two neighbours.
pub open spec fn joined(parts: Seq<Seq<char>>, sep: Seq<char>) -> Seq<char>
    decreases parts.len(),
{
    if parts.len() == 0 {
        Seq::empty()
    } else if parts.len() == 1 {
        parts[0]
    } else {
        joined(parts.drop_last(), sep) + sep + parts.last()
    }
}

/// Computes [`joined`].
pub fn join_texts(parts: &Vec<String>, sep: &str) -> (out: String)
    ensures
        out@ == joined(texts(parts@), sep@),
{
    let mut out = String::new();
    let mut i: usize = 0;
    assert(texts(parts@).take(0) =~= Seq::<Seq<char>>::empty());
    while i < parts.len()
        invariant
            i <= parts.len(),
            out@ == joined(texts(parts@).take(i as int), sep@),
        decreases parts.len() - i,
    {
        let ghost done = texts(parts@).take(i as int);
        let ghost next = texts(parts@).take(i + 1);
        assert(next.drop_last() =~= done);
        assert(next.last() == parts@[i as int]@);
        if i > 0 {
            out.append(sep);
        }
        out.append(parts[i].as_str());
        assert(out@ =~= joined(next, sep@));
        i += 1;
    }
    assert(texts(parts@).take(parts.len() as int) =~= texts(parts@));
    out
}

/// Whether a character is one of the ten decimal digits.
pub open spec fn is_digit(c: char) -> bool {
    '0' <= c && c <= '9'
}

/// The number that a decimal digit stands for.
pub open spec fn digit_value(c: char) -> nat {
    (c as u32 - '0' as u32) as nat
}

/// The number that a run of decimal digits stands for.
pub open spec fn digits_value(s: Seq<char>) -> nat
    decreases s.len(),
{
    if s.len() == 0 {
        0
    } else {
        digits_value(s.drop_last()) * 10 + digit_value(s.last())
    }
}

/// Whether every character is a decimal digit.
pub open spec fn all_digits(s: Seq<char>) -> bool {
    forall|i: int| 0 <= i < s.len() ==> is_digit(#[trigger] s[i])
}

/// The unsigned 32-bit number that a text denotes: decimal digits, at least
/// one, after an optional plus sign, and no more than the type holds.
/// Anything else denotes no number.
pub open spec fn parsed_u32(s: Seq<char>) -> Option<u32> {
    let body = if s.len() > 0 && s[0] == '+' {
        s.drop_first()
    } else {
        s
    };
    if body.len() > 0 && all_digits(body) && digits_value(body) <= u32::MAX {
        Some(digits_value(body) as u32)
    } else {
        None
    }
}

proof fn lemma_digits_value_grows(s: Seq<char>, k: int)
    requires
        0 <= k <= s.len(),
        all_digits(s),
    ensures
        digits_value(s.take(k)) <= digits_value(s),
    decreases s.len() - k,
{
    if k < s.len() {
        lemma_digits_value_grows(s, k + 1);
        assert(s.take(k + 1).drop_last() =~= s.take(k));
        assert(is_digit(s[k]));
    } else {
        assert(s.take(k) =~= s);
    }
}

/// Computes [`parsed_u32`].
pub fn parse_u32(s: &str) -> (number: Option<u32>)
    ensures
        number == parsed_u32(s@),
{
    let n = s.unicode_len();
    let start: usize = if n > 0 && s.get_char(0) == '+' {
        1
    } else {
        0
    };
    let ghost body = if start == 1 {
        s@.drop_first()
    } else {
        s@
    };
    if start == n {
        return None;
    }
    let mut acc: u64 = 0;
    let mut i: usize = start;
    assert(body.take(0) =~= Seq::<char>::empty());
    while i < n
        invariant
            start <= i <= n,
            n == s@.len(),
            body.len() == n - start,
            body == if s@.len() > 0 && s@[0] == '+' {
                s@.drop_first()
            } else {
                s@
            },
            forall|k: int| 0 <= k < body.len() ==> body[k] == s@[k + start],
            acc == digits_value(body.take(i - start)),
            acc <= u32::MAX,
            forall|k: int| 0 <= k < i - start ==> is_digit(#[trigger] body[k]),
        decreases n - i,
    {
        let c = s.get_char(i);
        assert(c == body[i - start]);
        if !(c >= '0' && c <= '9') {
            return None;
        }
        let d: u64 = (c as u32 - '0' as u32) as u64;
        assert(body.take(i + 1 - start).drop_last() =~= body.take(i - start));
        acc = acc * 10 + d;
        if acc > u32::MAX as u64 {
            proof {
                if all_digits(body) {
                    lemma_digits_value_grows(body, i + 1 - start);
                }
            }
            return None;
        }
        i += 1;
    }
    assert(body.take(n - start) =~= body);
    Some(acc as u32)
}

/// All the parts, one after another.
pub open spec fn concat_all(parts: Seq<Seq<char>>) -> Seq<char>
    decreases parts.len(),
{
    if parts.len() == 0 {
        Seq::empty()
    } else {
        concat_all(parts.drop_last()) + parts.last()
    }
}

/// Adding a part at the end adds it at the end of the whole.
pub proof fn lemma_concat_all_push(parts: Seq<Seq<char>>, last: Seq<char>)
    ensures
        concat_all(parts.push(last)) == concat_all(parts) + last,
{
    assert(parts.push(last).drop_last() =~= parts);
}

/// The views of a sequence of strings.
pub open spec fn texts(items: Seq<String>) -> Seq<Seq<char>> {
    items.map_values(|s: String| s@)
}

/// The view of an optional string.
pub open spec fn option_text(item: Option<String>) -> Option<Seq<char>> {
    match item {
        Some(s) => Some(s@),
        None => None,
    }
}

} // verus!
