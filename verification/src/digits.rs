//! Runs of decimal digits and the 16-bit numbers they denote.

use crate::error::RatioError;
use vstd::prelude::*;

verus! {

/// Whether `c` is one of the ten digits `0` to `9`.
pub open spec fn is_ascii_digit(c: char) -> bool {
    '0' <= c <= '9'
}

/// The number that the digit `c` stands for.
pub open spec fn digit_value(c: char) -> nat
    recommends
        is_ascii_digit(c),
{
    (c as int - '0' as int) as nat
}

/// Whether every character of `s` is one of `0` to `9`.
pub open spec fn all_ascii_digits(s: Seq<char>) -> bool {
    forall|i: int| 0 <= i < s.len() ==> is_ascii_digit(#[trigger] s[i])
}

/// The number that `s` denotes in base ten, most significant digit first.
pub open spec fn decimal_value(s: Seq<char>) -> nat
    recommends
        all_ascii_digits(s),
    decreases s.len(),
{
    if s.len() == 0 {
        0
    } else {
        10 * decimal_value(s.drop_last()) + digit_value(s.last())
    }
}

/// What a component of a ratio written as `s` amounts to: a number of 16
/// bits where `s` is made of the digits `0` to `9` and denotes one.
pub open spec fn group_value(s: Seq<char>) -> Result<u16, RatioError> {
    if s.len() == 0 || !all_ascii_digits(s) {
        Err(RatioError::InvalidDigit)
    } else if decimal_value(s) > u16::MAX {
        Err(RatioError::OutOfRange)
    } else {
        Ok(decimal_value(s) as u16)
    }
}

/// The character that is written for the digit `d`.
pub open spec fn digit_char(d: nat) -> char
    recommends
        d < 10,
{
    ('0' as int + d) as char
}

/// How the number `n` is written in base ten, without leading zeros.
pub open spec fn decimal_digits(n: nat) -> Seq<char>
    decreases n,
{
    if n < 10 {
        seq![digit_char(n)]
    } else {
        decimal_digits(n / 10).push(digit_char(n % 10))
    }
}

/// What is written for a number is made of digits and denotes that number.
pub proof fn lemma_decimal_digits(n: nat)
    ensures
        decimal_digits(n).len() > 0,
        all_ascii_digits(decimal_digits(n)),
        decimal_value(decimal_digits(n)) == n,
    decreases n,
{
    let written = decimal_digits(n);
    if n < 10 {
        assert(written.drop_last() =~= Seq::<char>::empty());
        assert(decimal_value(written.drop_last()) == 0);
        assert(digit_value(written.last()) == n);
    } else {
        lemma_decimal_digits(n / 10);
        assert(written.drop_last() =~= decimal_digits(n / 10));
        assert(digit_value(written.last()) == n % 10);
    }
}

/// What the first `n` characters of `s` amount to, with every number over
/// 65535 taken as 65536.
spec fn capped_value(s: Seq<char>, n: int) -> nat {
    if decimal_value(s.take(n)) > u16::MAX {
        65536
    } else {
        decimal_value(s.take(n))
    }
}

/// One more digit multiplies the number by ten and adds the digit.
proof fn lemma_decimal_value_step(s: Seq<char>, n: int)
    requires
        0 <= n < s.len(),
    ensures
        decimal_value(s.take(n + 1)) == 10 * decimal_value(s.take(n)) + digit_value(s[n]),
{
    assert(s.take(n + 1).drop_last() =~= s.take(n));
}

/// Reads one component of a ratio: a number in base ten, written with the
/// digits `0` to `9` and nothing else, that fits in 16 bits.
pub fn parse_digit_group(group: &str) -> (r: Result<u16, RatioError>)
    ensures
        r == group_value(group@),
{
    let mut empty = true;
    let mut value: u32 = 0;
    for c in it: group.chars()
        invariant
            it.seq() == group@,
            empty == (it.index() == 0),
            all_ascii_digits(group@.take(it.index() as int)),
            value == capped_value(group@, it.index() as int),
    {
        if c < '0' || c > '9' {
            return Err(RatioError::InvalidDigit);
        }
        proof {
            lemma_decimal_value_step(group@, it.index() as int);
        }
        let d: u32 = c as u32 - '0' as u32;
        value = value * 10 + d;
        if value > 65535 {
            value = 65536;
        }
        empty = false;
    }
    proof {
        assert(group@.take(group@.len() as int) =~= group@);
    }
    if empty {
        Err(RatioError::InvalidDigit)
    } else if value > 65535 {
        Err(RatioError::OutOfRange)
    } else {
        Ok(value as u16)
    }
}

} // verus!
