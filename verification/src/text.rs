//! Text helpers: comparing strings, and writing numbers in decimal and
//! hexadecimal.

use vstd::prelude::*;
use vstd::string::*;
use vstd::utf8::{encode_utf8, encode_utf8_decode_utf8};

verus! {

/// `String::push` appends one character.
pub assume_specification[ String::push ](s: &mut String, c: char)
    ensures
        final(s)@ == old(s)@.push(c),
;

/// The character that stands for the digit `d` in bases up to sixteen, in
/// lower case.
pub open spec fn spec_digit_char(d: nat) -> char {
    if d < 10 {
        (48 + d) as char
    } else {
        (87 + d) as char
    }
}

/// `n` in decimal, without sign or leading zeros.
pub open spec fn spec_decimal(n: nat) -> Seq<char>
    decreases n,
{
    if n < 10 {
        seq![spec_digit_char(n)]
    } else {
        spec_decimal(n / 10).push(spec_digit_char(n % 10))
    }
}

/// `n` as four hexadecimal digits in lower case; `n` is below 65536.
pub open spec fn spec_hex4(n: nat) -> Seq<char> {
    seq![
        spec_digit_char(n / 4096 % 16),
        spec_digit_char(n / 256 % 16),
        spec_digit_char(n / 16 % 16),
        spec_digit_char(n % 16),
    ]
}

/// The character of one digit below sixteen.
pub fn digit_char(d: u8) -> (c: char)
    requires
        d < 16,
    ensures
        c == spec_digit_char(d as nat),
{
    if d < 10 {
        (48u8 + d) as char
    } else {
        (87u8 + d) as char
    }
}

/// Appends `n` in decimal to `out`.
pub fn push_decimal(out: &mut String, n: u64)
    ensures
        final(out)@ == old(out)@ + spec_decimal(n as nat),
    decreases n,
{
    if n >= 10 {
        push_decimal(out, n / 10);
    }
    out.push(digit_char((n % 10) as u8));
}

/// Appends `n` as four hexadecimal digits to `out`.
pub fn push_hex4(out: &mut String, n: u16)
    ensures
        final(out)@ == old(out)@ + spec_hex4(n as nat),
{
    out.push(digit_char((n / 4096 % 16) as u8));
    out.push(digit_char((n / 256 % 16) as u8));
    out.push(digit_char((n / 16 % 16) as u8));
    out.push(digit_char((n % 16) as u8));
}

/// Whether two strings hold the same characters.
pub fn str_eq(a: &str, b: &str) -> (same: bool)
    ensures
        same == (a@ == b@),
{
    let x = a.as_bytes();
    let y = b.as_bytes();
    proof {
        encode_utf8_decode_utf8(a@);
        encode_utf8_decode_utf8(b@);
    }
    if x.len() != y.len() {
        return false;
    }
    let mut i: usize = 0;
    while i < x.len()
        invariant
            i <= x.len(),
            x.len() == y.len(),
            forall|k: int| 0 <= k < i ==> x@[k] == y@[k],
            x@ == encode_utf8(a@),
            y@ == encode_utf8(b@),
        decreases x.len() - i,
    {
        if x[i] != y[i] {
            return false;
        }
        i += 1;
    }
    assert(x@ =~= y@);
    true
}

/// The characters of `s`, one by one.
pub fn chars_of(s: &str) -> (chars: Vec<char>)
    ensures
        chars@ == s@,
{
    let mut chars: Vec<char> = Vec::new();
    for c in it: s.chars()
        invariant
            it.seq() == s@,
            chars@ == it.seq().take(it.index() as int),
    {
        chars.push(c);
    }
    chars
}

/// Whether `s` begins with `prefix`.
pub open spec fn spec_starts_with(s: Seq<char>, prefix: Seq<char>) -> bool {
    prefix.len() <= s.len() && s.subrange(0, prefix.len() as int) == prefix
}

/// Whether `s` ends with `suffix`.
pub open spec fn spec_ends_with(s: Seq<char>, suffix: Seq<char>) -> bool {
    suffix.len() <= s.len() && s.subrange(s.len() - suffix.len(), s.len() as int) == suffix
}

/// Whether `chars` begins with `prefix`.
pub fn starts_with(chars: &[char], prefix: &[char]) -> (found: bool)
    ensures
        found == spec_starts_with(chars@, prefix@),
{
    if prefix.len() > chars.len() {
        return false;
    }
    let mut i: usize = 0;
    while i < prefix.len()
        invariant
            i <= prefix.len() <= chars.len(),
            forall|k: int| 0 <= k < i ==> chars@[k] == prefix@[k],
        decreases prefix.len() - i,
    {
        if chars[i] != prefix[i] {
            return false;
        }
        i += 1;
    }
    assert(chars@.subrange(0, prefix@.len() as int) =~= prefix@);
    true
}

/// Whether `chars` ends with `suffix`.
pub fn ends_with(chars: &[char], suffix: &[char]) -> (found: bool)
    ensures
        found == spec_ends_with(chars@, suffix@),
{
    if suffix.len() > chars.len() {
        return false;
    }
    let start = chars.len() - suffix.len();
    let mut i: usize = 0;
    while i < suffix.len()
        invariant
            i <= suffix.len() <= chars.len(),
            start == chars.len() - suffix.len(),
            forall|k: int| 0 <= k < i ==> chars@[start + k] == suffix@[k],
        decreases suffix.len() - i,
    {
        if chars[start + i] != suffix[i] {
            return false;
        }
        i += 1;
    }
    assert(chars@.subrange(start as int, chars@.len() as int) =~= suffix@);
    true
}

/// The pieces of `s` between the occurrences of `sep`: one more than there
/// are occurrences, empty ones included.
pub open spec fn spec_split(s: Seq<char>, sep: char) -> Seq<Seq<char>>
    decreases s.len(),
{
    if s.len() == 0 {
        seq![Seq::empty()]
    } else {
        let before = spec_split(s.drop_last(), sep);
        if s.last() == sep {
            before.push(Seq::empty())
        } else {
            before.update(before.len() - 1, before.last().push(s.last()))
        }
    }
}

/// Splitting gives at least one piece.
pub proof fn lemma_split_nonempty(s: Seq<char>, sep: char)
    ensures
        spec_split(s, sep).len() >= 1,
    decreases s.len(),
{
    if s.len() > 0 {
        lemma_split_nonempty(s.drop_last(), sep);
    }
}

/// The pieces of `chars` between the occurrences of `sep`.
pub fn split(chars: &[char], sep: char) -> (parts: Vec<Vec<char>>)
    ensures
        parts@.len() == spec_split(chars@, sep).len(),
        forall|k: int|
            0 <= k < parts@.len() ==> (#[trigger] parts@[k])@ == spec_split(chars@, sep)[k],
{
    let mut parts: Vec<Vec<char>> = Vec::new();
    let mut current: Vec<char> = Vec::new();
    let mut i: usize = 0;
    while i < chars.len()
        invariant
            i <= chars.len(),
            parts@.len() + 1 == spec_split(chars@.take(i as int), sep).len(),
            forall|k: int|
                0 <= k < parts@.len() ==> (#[trigger] parts@[k])@ == spec_split(
                    chars@.take(i as int),
                    sep,
                )[k],
            current@ == spec_split(chars@.take(i as int), sep).last(),
        decreases chars.len() - i,
    {
        proof {
            assert(chars@.take(i + 1).drop_last() =~= chars@.take(i as int));
        }
        if chars[i] == sep {
            parts.push(current);
            current = Vec::new();
        } else {
            current.push(chars[i]);
        }
        i += 1;
    }
    proof {
        assert(chars@.take(chars@.len() as int) =~= chars@);
    }
    parts.push(current);
    parts
}

/// Whether `c` is one of `0` to `9`.
pub open spec fn spec_is_digit(c: char) -> bool {
    48 <= c as u32 && c as u32 <= 57
}

/// The number that the decimal digits `s` spell; leading zeros count for
/// nothing.
pub open spec fn spec_digits_value(s: Seq<char>) -> nat
    decreases s.len(),
{
    if s.len() == 0 {
        0
    } else {
        spec_digits_value(s.drop_last()) * 10 + (s.last() as u32 - 48) as nat
    }
}

/// Whether `s` holds decimal digits only.
pub open spec fn spec_all_digits(s: Seq<char>) -> bool {
    forall|i: int| 0 <= i < s.len() ==> spec_is_digit(#[trigger] s[i])
}

/// The number that `digits` spell, where they are one or more decimal
/// digits and the number fits a `u32`.
pub open spec fn spec_parse_digits(digits: Seq<char>) -> Option<u32> {
    if digits.len() > 0 && spec_all_digits(digits) && spec_digits_value(digits) <= u32::MAX {
        Some(spec_digits_value(digits) as u32)
    } else {
        None
    }
}

/// What `s` parses to as a `u32`: an optional `+`, then one or more decimal
/// digits that spell a number within range; anything else is refused.
pub open spec fn spec_parse_u32(s: Seq<char>) -> Option<u32> {
    if s.len() > 1 && s[0] == '+' {
        spec_parse_digits(s.drop_first())
    } else {
        spec_parse_digits(s)
    }
}

/// More digits never spell a smaller number.
pub proof fn lemma_digits_value_grows(s: Seq<char>, i: int)
    requires
        0 <= i <= s.len(),
        spec_all_digits(s),
    ensures
        spec_digits_value(s.take(i)) <= spec_digits_value(s),
    decreases s.len() - i,
{
    if i < s.len() {
        assert(s.take(i + 1).drop_last() =~= s.take(i));
        lemma_digits_value_grows(s, i + 1);
    } else {
        assert(s.take(i) =~= s);
    }
}

/// Parses `chars` as a `u32` in decimal, as `str::parse` does.
pub fn parse_u32(chars: &[char]) -> (r: Option<u32>)
    ensures
        r == spec_parse_u32(chars@),
{
    let start: usize = if chars.len() > 1 && chars[0] == '+' {
        1
    } else {
        0
    };
    let ghost digits = if start == 1 {
        chars@.drop_first()
    } else {
        chars@
    };
    if chars.len() == start {
        return None;
    }
    let mut value: u64 = 0;
    let mut i: usize = start;
    while i < chars.len()
        invariant
            start <= i <= chars.len(),
            start <= 1,
            digits == chars@.subrange(start as int, chars@.len() as int),
            spec_parse_u32(chars@) == spec_parse_digits(digits),
            forall|k: int| 0 <= k < i - start ==> spec_is_digit(digits[k]),
            value == spec_digits_value(digits.take(i - start)),
            value <= u32::MAX,
        decreases chars.len() - i,
    {
        let c = chars[i];
        let code = c as u32;
        if code < 48 || code > 57 {
            assert(!spec_is_digit(digits[i - start]));
            return None;
        }
        proof {
            assert(digits.take(i - start + 1).drop_last() =~= digits.take(i - start));
        }
        let next = value * 10 + (code - 48) as u64;
        if next > u32::MAX as u64 {
            proof {
                if spec_all_digits(digits) {
                    lemma_digits_value_grows(digits, i - start + 1);
                }
            }
            return None;
        }
        value = next;
        i += 1;
    }
    proof {
        assert(digits.take(digits.len() as int) =~= digits);
    }
    Some(value as u32)
}

/// The digits of a number are decimal digits, at least one of them, and
/// spell the number.
pub proof fn lemma_decimal_digits(n: nat)
    ensures
        spec_decimal(n).len() >= 1,
        spec_all_digits(spec_decimal(n)),
        spec_digits_value(spec_decimal(n)) == n,
    decreases n,
{
    if n >= 10 {
        lemma_decimal_digits(n / 10);
        let head = spec_decimal(n / 10);
        let all = head.push(spec_digit_char(n % 10));
        assert(all.drop_last() =~= head);
        assert(forall|i: int| 0 <= i < all.len() ==> spec_is_digit(#[trigger] all[i]));
    } else {
        let all = seq![spec_digit_char(n)];
        assert(spec_digits_value(all.drop_last()) == 0);
    }
}

/// A number that is written in decimal parses back to itself.
pub proof fn lemma_parse_decimal(n: u32)
    ensures
        spec_parse_u32(spec_decimal(n as nat)) == Some(n),
{
    lemma_decimal_digits(n as nat);
    assert(spec_is_digit(spec_decimal(n as nat)[0]));
}

/// The digits of a number hold no character that is not a digit.
pub proof fn lemma_decimal_has_no(n: nat, c: char)
    requires
        !spec_is_digit(c),
    ensures
        !spec_decimal(n).contains(c),
{
    lemma_decimal_digits(n);
    let text = spec_decimal(n);
    assert(text.contains(c) ==> spec_is_digit(text[text.index_of(c)]));
}

/// Behind the last separator lies the last piece: a text without the
/// separator that follows one is a piece of its own.
pub proof fn lemma_split_last(head: Seq<char>, sep: char, tail: Seq<char>)
    requires
        !tail.contains(sep),
    ensures
        spec_split(head.push(sep) + tail, sep) == spec_split(head, sep).push(tail),
    decreases tail.len(),
{
    let whole = head.push(sep) + tail;
    if tail.len() == 0 {
        assert(whole.drop_last() =~= head);
        assert(tail =~= Seq::<char>::empty());
    } else {
        let shorter = tail.drop_last();
        assert(!shorter.contains(sep));
        lemma_split_last(head, sep, shorter);
        assert(whole.drop_last() =~= head.push(sep) + shorter);
        assert(tail.last() != sep);
        let before = spec_split(head, sep).push(shorter);
        assert(before.last().push(tail.last()) =~= tail);
    }
}

/// A text that holds the separator splits into two pieces at least.
pub proof fn lemma_split_has_separator(s: Seq<char>, sep: char, at: int)
    requires
        0 <= at < s.len(),
        s[at] == sep,
    ensures
        spec_split(s, sep).len() >= 2,
    decreases s.len(),
{
    lemma_split_nonempty(s.drop_last(), sep);
    if at < s.len() - 1 {
        lemma_split_has_separator(s.drop_last(), sep, at);
    }
}

} // verus!
