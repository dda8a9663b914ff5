use vstd::prelude::*;
use crate::text::{chars_of, push_char};

verus! {

/// The character of a decimal digit `0..=9`.
pub open spec fn digit_char(d: int) -> char {
    if d == 0 { '0' }
    else if d == 1 { '1' }
    else if d == 2 { '2' }
    else if d == 3 { '3' }
    else if d == 4 { '4' }
    else if d == 5 { '5' }
    else if d == 6 { '6' }
    else if d == 7 { '7' }
    else if d == 8 { '8' }
    else { '9' }
}

/// The decimal representation of a natural number, without leading zeros.
pub open spec fn decimal(n: nat) -> Seq<char>
    decreases n,
{
    if n < 10 {
        seq![digit_char(n as int)]
    } else {
        decimal(n / 10).push(digit_char((n % 10) as int))
    }
}

/// The decimal representation of an integer, with a leading `-` when negative.
pub open spec fn signed_decimal(n: int) -> Seq<char> {
    if n < 0 {
        seq!['-'] + decimal((-n) as nat)
    } else {
        decimal(n as nat)
    }
}

/// True when `c` is an ASCII decimal digit.
pub open spec fn is_digit(c: char) -> bool {
    '0' <= c && c <= '9'
}

/// The value of a decimal digit character.
pub open spec fn digit_value(c: char) -> nat {
    ((c as u32) - ('0' as u32)) as nat
}

/// True when every character of `s` is an ASCII decimal digit.
pub open spec fn all_digits(s: Seq<char>) -> bool {
    forall|i: int| 0 <= i < s.len() ==> is_digit(#[trigger] s[i])
}

/// The number that a sequence of decimal digits denotes.
pub open spec fn digits_value(s: Seq<char>) -> nat
    decreases s.len(),
{
    if s.len() == 0 {
        0
    } else {
        digits_value(s.drop_last()) * 10 + digit_value(s.last())
    }
}

/// The integer that `s` denotes in the syntax that Rust's `str::parse` accepts
/// for integer types: an optional sign (`-` only when `signed`), then one or
/// more ASCII digits, and nothing else. The range of the target type is not
/// checked here.
pub open spec fn integer_syntax(s: Seq<char>, signed: bool) -> Option<int> {
    if s.len() == 0 {
        None
    } else if (s[0] == '+' || s[0] == '-') && s.len() == 1 {
        None
    } else if s[0] == '+' {
        if all_digits(s.drop_first()) { Some(digits_value(s.drop_first()) as int) } else { None }
    } else if s[0] == '-' && signed {
        if all_digits(s.drop_first()) { Some(-(digits_value(s.drop_first()) as int)) } else { None }
    } else {
        if all_digits(s) { Some(digits_value(s) as int) } else { None }
    }
}

/// What `s.parse::<i32>()` gives, as an option.
pub open spec fn parsed_i32(s: Seq<char>) -> Option<i32> {
    match integer_syntax(s, true) {
        Some(v) => if i32::MIN <= v <= i32::MAX { Some(v as i32) } else { None },
        None => None,
    }
}

/// What `s.parse::<i64>()` gives, as an option.
pub open spec fn parsed_i64(s: Seq<char>) -> Option<i64> {
    match integer_syntax(s, true) {
        Some(v) => if i64::MIN <= v <= i64::MAX { Some(v as i64) } else { None },
        None => None,
    }
}

/// What `s.parse::<u64>()` gives, as an option.
pub open spec fn parsed_u64(s: Seq<char>) -> Option<u64> {
    match integer_syntax(s, false) {
        Some(v) => if 0 <= v <= u64::MAX { Some(v as u64) } else { None },
        None => None,
    }
}

fn digit_of(d: u64) -> (c: char)
    requires
        d < 10,
    ensures
        c == digit_char(d as int),
{
    if d == 0 { '0' }
    else if d == 1 { '1' }
    else if d == 2 { '2' }
    else if d == 3 { '3' }
    else if d == 4 { '4' }
    else if d == 5 { '5' }
    else if d == 6 { '6' }
    else if d == 7 { '7' }
    else if d == 8 { '8' }
    else { '9' }
}

/// Appends the decimal representation of `n` to `s`.
pub fn push_decimal(s: &mut String, n: u64)
    ensures
        final(s)@ == old(s)@ + decimal(n as nat),
    decreases n,
{
    if n < 10 {
        push_char(s, digit_of(n));
        assert(decimal(n as nat) =~= seq![digit_char(n as int)]);
    } else {
        push_decimal(s, n / 10);
        push_char(s, digit_of(n % 10));
        assert(decimal(n as nat) == decimal((n / 10) as nat).push(digit_char((n % 10) as int)));
        assert(final(s)@ =~= old(s)@ + decimal(n as nat));
    }
}

/// Appends the decimal representation of `n` (with `-` when negative) to `s`.
pub fn push_signed_decimal(s: &mut String, n: i64)
    ensures
        final(s)@ == old(s)@ + signed_decimal(n as int),
{
    if n < 0 {
        push_char(s, '-');
        let magnitude: u64 = if n == i64::MIN { 9223372036854775808u64 } else { (-n) as u64 };
        push_decimal(s, magnitude);
        assert(final(s)@ =~= old(s)@ + signed_decimal(n as int));
    } else {
        push_decimal(s, n as u64);
    }
}

/// The decimal representation of `n`.
pub fn u64_to_decimal(n: u64) -> (s: String)
    ensures
        s@ == decimal(n as nat),
{
    let mut s = String::new();
    push_decimal(&mut s, n);
    assert(s@ =~= decimal(n as nat));
    s
}

/// The decimal representation of `n`, with `-` when negative.
pub fn i64_to_decimal(n: i64) -> (s: String)
    ensures
        s@ == signed_decimal(n as int),
{
    let mut s = String::new();
    push_signed_decimal(&mut s, n);
    assert(s@ =~= signed_decimal(n as int));
    s
}

/// A number of digits never denotes less than any of its prefixes.
proof fn lemma_digits_prefix_le(s: Seq<char>, k: int)
    requires
        0 <= k <= s.len(),
    ensures
        digits_value(s.take(k)) <= digits_value(s),
    decreases s.len(),
{
    if k < s.len() {
        lemma_digits_prefix_le(s.drop_last(), k);
        assert(s.drop_last().take(k) =~= s.take(k));
    } else {
        assert(s.take(k) =~= s);
    }
}

/// The bound above which no parsed value fits any target type used here.
pub open spec fn value_cap() -> nat {
    0x1_0000_0000_0000_0000
}

/// Reads `cs[start..]` as a sequence of digits. `None` when a character is not
/// a digit, or when the value exceeds 2^64.
fn read_digits(cs: &Vec<char>, start: usize) -> (r: Option<u128>)
    requires
        start <= cs.len(),
    ensures
        match r {
            Some(v) => all_digits(cs@.subrange(start as int, cs.len() as int))
                && v == digits_value(cs@.subrange(start as int, cs.len() as int))
                && v <= value_cap(),
            None => !all_digits(cs@.subrange(start as int, cs.len() as int))
                || digits_value(cs@.subrange(start as int, cs.len() as int)) > value_cap(),
        },
{
    let ghost full = cs@.subrange(start as int, cs.len() as int);
    let mut acc: u128 = 0;
    let mut i: usize = start;
    while i < cs.len()
        invariant
            start <= i <= cs.len(),
            full == cs@.subrange(start as int, cs.len() as int),
            all_digits(cs@.subrange(start as int, i as int)),
            acc == digits_value(cs@.subrange(start as int, i as int)),
            acc <= value_cap(),
        decreases cs.len() - i,
    {
        let c = cs[i];
        let ghost prefix = cs@.subrange(start as int, i as int);
        let ghost next = cs@.subrange(start as int, i + 1);
        assert(next.drop_last() =~= prefix);
        assert(next.last() == c);
        assert(full.take(i + 1 - start) =~= next);
        if !('0' <= c && c <= '9') {
            assert(full[i - start] == c);
            return None;
        }
        let d = (c as u32 - '0' as u32) as u128;
        acc = acc * 10 + d;
        assert(all_digits(next)) by {
            assert forall|j: int| 0 <= j < next.len() implies is_digit(#[trigger] next[j]) by {
                if j < next.len() - 1 {
                    assert(next[j] == prefix[j]);
                }
            }
        }
        if acc > 0x1_0000_0000_0000_0000u128 {
            proof {
                if all_digits(full) {
                    lemma_digits_prefix_le(full, i + 1 - start);
                }
            }
            return None;
        }
        i = i + 1;
    }
    assert(cs@.subrange(start as int, i as int) =~= full);
    Some(acc)
}

/// The integer that `s` denotes in the syntax of `integer_syntax`, when its
/// magnitude is at most 2^64; `None` otherwise.
fn parse_integer(s: &str, signed: bool) -> (r: Option<i128>)
    ensures
        match r {
            Some(v) => integer_syntax(s@, signed) == Some(v as int),
            None => match integer_syntax(s@, signed) {
                Some(v) => v > value_cap() || v < -value_cap(),
                None => true,
            },
        },
{
    let cs = chars_of(s);
    let n = cs.len();
    if n == 0 {
        return None;
    }
    let first = cs[0];
    if (first == '+' || first == '-') && n == 1 {
        return None;
    }
    if first == '+' || (first == '-' && signed) {
        assert(cs@.subrange(1, n as int) =~= s@.drop_first());
        match read_digits(&cs, 1) {
            Some(v) => {
                if first == '-' {
                    Some(-(v as i128))
                } else {
                    Some(v as i128)
                }
            },
            None => None,
        }
    } else {
        assert(cs@.subrange(0, n as int) =~= s@);
        match read_digits(&cs, 0) {
            Some(v) => Some(v as i128),
            None => None,
        }
    }
}

/// Parses a decimal `i32` as `str::parse::<i32>` does.
pub fn parse_i32(s: &str) -> (r: Option<i32>)
    ensures
        r == parsed_i32(s@),
{
    match parse_integer(s, true) {
        Some(v) => if -2147483648 <= v && v <= 2147483647 { Some(v as i32) } else { None },
        None => None,
    }
}

/// Parses a decimal `i64` as `str::parse::<i64>` does.
pub fn parse_i64(s: &str) -> (r: Option<i64>)
    ensures
        r == parsed_i64(s@),
{
    match parse_integer(s, true) {
        Some(v) => if -9223372036854775808 <= v && v <= 9223372036854775807 { Some(v as i64) } else { None },
        None => None,
    }
}

/// Parses a decimal `u64` as `str::parse::<u64>` does.
pub fn parse_u64(s: &str) -> (r: Option<u64>)
    ensures
        r == parsed_u64(s@),
{
    match parse_integer(s, false) {
        Some(v) => if 0 <= v && v <= 18446744073709551615 { Some(v as u64) } else { None },
        None => None,
    }
}

proof fn lemma_digit_char(d: int)
    requires
        0 <= d < 10,
    ensures
        is_digit(digit_char(d)),
        digit_value(digit_char(d)) == d,
{
}

pub(crate) proof fn lemma_decimal_digits(n: nat)
    ensures
        decimal(n).len() >= 1,
        all_digits(decimal(n)),
        digits_value(decimal(n)) == n,
    decreases n,
{
    if n < 10 {
        lemma_digit_char(n as int);
        assert(decimal(n).drop_last() =~= Seq::<char>::empty());
        assert(digits_value(Seq::<char>::empty()) == 0);
        assert(digits_value(decimal(n)) == digits_value(decimal(n).drop_last()) * 10 + digit_value(decimal(n).last()));
    } else {
        lemma_decimal_digits(n / 10);
        lemma_digit_char((n % 10) as int);
        let d = decimal(n);
        assert(d.drop_last() =~= decimal(n / 10));
        assert(forall|i: int| 0 <= i < d.len() - 1 ==> d[i] == decimal(n / 10)[i]);
        assert(d.last() == digit_char((n % 10) as int));
        assert(digits_value(d) == digits_value(decimal(n / 10)) * 10 + (n % 10));
        assert(n == (n / 10) * 10 + n % 10);
    }
}

/// Every natural number that the bot writes in decimal reads back, through the
/// parser of `u64`, as the same number.
pub proof fn law_u64_decimal_round_trip(n: u64)
    ensures
        parsed_u64(decimal(n as nat)) == Some(n),
{
    lemma_decimal_digits(n as nat);
    lemma_digit_char(0);
    let d = decimal(n as nat);
    assert(is_digit(d[0]));
}

/// Every `i64` that the bot writes in decimal (with `-` when negative) reads
/// back, through the parser of `i64`, as the same number.
pub proof fn law_i64_decimal_round_trip(n: i64)
    ensures
        parsed_i64(signed_decimal(n as int)) == Some(n),
{
    if n < 0 {
        let m = (-(n as int)) as nat;
        lemma_decimal_digits(m);
        let s = signed_decimal(n as int);
        assert(s.drop_first() =~= decimal(m));
        assert(s[0] == '-');
    } else {
        lemma_decimal_digits(n as nat);
        let d = decimal(n as nat);
        assert(is_digit(d[0]));
    }
}

/// A leading `0` does not change what digits denote.
pub(crate) proof fn lemma_leading_zero(d: Seq<char>)
    ensures
        digits_value(seq!['0'] + d) == digits_value(d),
        all_digits(d) ==> all_digits(seq!['0'] + d),
    decreases d.len(),
{
    let z = seq!['0'] + d;
    lemma_digit_char(0);
    if d.len() == 0 {
        assert(z.drop_last() =~= Seq::<char>::empty());
        assert(digits_value(z) == digits_value(z.drop_last()) * 10 + digit_value(z.last()));
        assert(digit_value(z.last()) == 0);
    } else {
        lemma_leading_zero(d.drop_last());
        assert(z.drop_last() =~= seq!['0'] + d.drop_last());
        assert(z.last() == d.last());
        assert(digits_value(z) == digits_value(z.drop_last()) * 10 + digit_value(z.last()));
        assert(digits_value(d) == digits_value(d.drop_last()) * 10 + digit_value(d.last()));
    }
    if all_digits(d) {
        assert forall|i: int| 0 <= i < z.len() implies is_digit(#[trigger] z[i]) by {
            if i > 0 {
                assert(z[i] == d[i - 1]);
            }
        }
    }
}

/// Digits that denote a `u64` parse, as `str::parse::<u64>` does, to that value.
pub(crate) proof fn lemma_digits_parse_u64(d: Seq<char>)
    requires
        d.len() > 0,
        all_digits(d),
        digits_value(d) <= u64::MAX,
    ensures
        parsed_u64(d) == Some(digits_value(d) as u64),
{
    assert(is_digit(d[0]));
}

} // verus!
