//! Decimal notation of unsigned numbers.

use vstd::prelude::*;

use crate::text::{chars_of, text_of};

verus! {

/// Whether `c` is one of the ten ASCII digits.
pub open spec fn is_digit(c: char) -> bool {
    '0' <= c <= '9'
}

/// Whether `s` is made of ASCII digits alone.
pub open spec fn all_digits(s: Seq<char>) -> bool {
    forall|i: int| 0 <= i < s.len() ==> is_digit(#[trigger] s[i])
}

/// The number that the digits `s` write, most significant digit first.
pub open spec fn digits_value(s: Seq<char>) -> nat
    decreases s.len(),
{
    if s.len() == 0 {
        0
    } else {
        10 * digits_value(s.drop_last()) + (s.last() as nat - '0' as nat) as nat
    }
}

/// The digits that follow an optional plus sign.
pub open spec fn after_plus(s: Seq<char>) -> Seq<char> {
    if s.len() > 0 && s[0] == '+' {
        s.skip(1)
    } else {
        s
    }
}

/// The number that `s` writes, if it is an optional plus sign followed by at
/// least one digit and nothing else, and the number is at most `max`.
pub open spec fn parsed(s: Seq<char>, max: nat) -> Option<nat> {
    let digits = after_plus(s);
    if digits.len() > 0 && all_digits(digits) && digits_value(digits) <= max {
        Some(digits_value(digits))
    } else {
        None
    }
}

/// The decimal digits of `n`, without leading zeros.
pub open spec fn decimal(n: nat) -> Seq<char>
    decreases n,
{
    if n < 10 {
        seq![digit_char(n)]
    } else {
        decimal(n / 10).push(digit_char(n % 10))
    }
}

/// The digit that writes `d`.
pub open spec fn digit_char(d: nat) -> char {
    ('0' as nat + d) as char
}

proof fn lemma_prefix_value(s: Seq<char>, i: int)
    requires
        0 <= i <= s.len(),
    ensures
        digits_value(s.take(i)) <= digits_value(s),
    decreases s.len(),
{
    if i < s.len() {
        lemma_prefix_value(s.drop_last(), i);
        assert(s.drop_last().take(i) == s.take(i));
    } else {
        assert(s.take(i) == s);
    }
}

/// What is written in decimal reads back as the same number.
pub proof fn lemma_decimal_reads_back(n: nat, max: nat)
    requires
        n <= max,
    ensures
        parsed(decimal(n), max) == Some(n),
{
    lemma_decimal_digits(n);
}

/// What is written in decimal has no sign: it is made of digits, of that value.
pub proof fn lemma_decimal_has_no_sign(n: nat)
    ensures
        decimal(n).len() > 0,
        all_digits(decimal(n)),
        digits_value(decimal(n)) == n,
{
    lemma_decimal_digits(n);
}

proof fn lemma_decimal_digits(n: nat)
    ensures
        decimal(n).len() > 0,
        all_digits(decimal(n)),
        digits_value(decimal(n)) == n,
    decreases n,
{
    if n < 10 {
        assert(digits_value(decimal(n).drop_last()) == 0);
    } else {
        lemma_decimal_digits(n / 10);
        let head = decimal(n / 10);
        assert(decimal(n).drop_last() == head);
        assert forall|i: int| 0 <= i < decimal(n).len() implies is_digit(#[trigger] decimal(n)[i]) by {
            if i < head.len() {
                assert(decimal(n)[i] == head[i]);
            }
        }
    }
}

/// Reads an unsigned number of at most `max`, as an unsigned integer type with
/// that largest value reads it.
fn parse_up_to(s: &str, max: u64) -> (res: Option<u64>)
    requires
        max <= u32::MAX,
    ensures
        res matches Some(n) ==> parsed(s@, max as nat) == Some(n as nat),
        res is None ==> parsed(s@, max as nat) is None,
{
    let chars = chars_of(s);
    let mut i: usize = 0;
    if chars.len() > 0 && chars[0] == '+' {
        i = 1;
    }
    let from = i;
    let ghost digits = after_plus(s@);
    assert(digits == s@.skip(from as int));
    if i == chars.len() {
        return None;
    }
    let mut value: u64 = 0;
    assert(digits.take(0) == Seq::<char>::empty());
    while i < chars.len()
        invariant
            from <= i <= chars@.len(),
            chars@ == s@,
            digits == after_plus(s@),
            digits == s@.skip(from as int),
            max <= u32::MAX,
            value <= max,
            all_digits(digits.take(i - from)),
            value == digits_value(digits.take(i - from)),
        decreases chars@.len() - i,
    {
        let c = chars[i];
        let ghost k = i - from;
        assert(digits[k] == c);
        if !('0' <= c && c <= '9') {
            assert(!is_digit(digits[k]));
            return None;
        }
        assert(digits.take(k + 1).drop_last() == digits.take(k));
        value = value * 10 + (c as u64 - '0' as u64);
        if value > max {
            proof {
                lemma_prefix_value(digits, k + 1);
            }
            return None;
        }
        i += 1;
    }
    assert(digits.take(digits.len() as int) == digits);
    Some(value)
}

/// Reads a `u32`.
pub fn parse_u32(s: &str) -> (res: Option<u32>)
    ensures
        res matches Some(n) ==> parsed(s@, u32::MAX as nat) == Some(n as nat),
        res is None ==> parsed(s@, u32::MAX as nat) is None,
{
    match parse_up_to(s, u32::MAX as u64) {
        Some(n) => Some(n as u32),
        None => None,
    }
}

/// Reads a `u16`.
pub fn parse_u16(s: &str) -> (res: Option<u16>)
    ensures
        res matches Some(n) ==> parsed(s@, u16::MAX as nat) == Some(n as nat),
        res is None ==> parsed(s@, u16::MAX as nat) is None,
{
    match parse_up_to(s, u16::MAX as u64) {
        Some(n) => Some(n as u16),
        None => None,
    }
}

fn decimal_chars(n: u32) -> (res: Vec<char>)
    ensures
        res@ == decimal(n as nat),
    decreases n,
{
    let digit = ('0' as u8 + (n % 10) as u8) as char;
    if n < 10 {
        let mut res: Vec<char> = Vec::new();
        res.push(digit);
        res
    } else {
        let mut res = decimal_chars(n / 10);
        res.push(digit);
        res
    }
}

/// Writes `n` in decimal.
pub fn to_decimal(n: u32) -> (res: String)
    ensures
        res@ == decimal(n as nat),
{
    let chars = decimal_chars(n);
    text_of(&chars)
}

} // verus!
