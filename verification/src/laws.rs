//! What holds of every text that is read as a ratio.

use crate::digits::{all_ascii_digits, decimal_digits, decimal_value, lemma_decimal_digits};
use crate::error::RatioError;
use crate::pattern::{
    contains_ratio, first_groups, holds_ratio, is_digit, is_digit_run, is_first_ratio,
    lemma_first_groups_at, lemma_groups_are_digit_runs,
};
use crate::ratio::{groups_value, ratio_value};
use vstd::prelude::*;

verus! {

/// Whether `s` is a number above 65535, written with the digits `0` to `9`.
pub open spec fn is_too_large(s: Seq<char>) -> bool {
    all_ascii_digits(s) && decimal_value(s) > u16::MAX
}

/// The first ratio wins, and what stands around it does not count: where no
/// digit comes before a ratio and none follows it directly, its two runs of
/// digits are the groups of the text.
pub proof fn lemma_ratio_in_context(
    before: Seq<char>,
    width: Seq<char>,
    height: Seq<char>,
    after: Seq<char>,
)
    requires
        forall|i: int| 0 <= i < before.len() ==> !is_digit(#[trigger] before[i]),
        is_digit_run(width),
        is_digit_run(height),
        after.len() > 0 ==> !is_digit(after[0]),
    ensures
        first_groups(before + width + seq![':'] + height + after) == Some((width, height)),
        ratio_value(before + width + seq![':'] + height + after) == groups_value(width, height),
{
    let text = before + width + seq![':'] + height + after;
    let a = before.len() as int;
    let b = a + width.len();
    let c = b + 1 + height.len();
    assert forall|i: int| a <= i < b implies is_digit(#[trigger] text[i]) by {
        assert(text[i] == width[i - a]);
    }
    assert forall|i: int| b < i < c implies is_digit(#[trigger] text[i]) by {
        assert(text[i] == height[i - b - 1]);
    }
    assert(text[b] == ':');
    assert(holds_ratio(text, a, b, c));
    if c < text.len() {
        assert(text[c] == after[0]);
    }
    assert forall|a2: int, b2: int, c2: int| holds_ratio(text, a2, b2, c2) implies a <= a2 by {
        if a2 < a {
            assert(text[a2] == before[a2]);
            assert(is_digit(text[a2]));
        }
    }
    assert(is_first_ratio(text, a, b, c));
    lemma_first_groups_at(text, a, b, c);
    assert(text.subrange(a, b) =~= width);
    assert(text.subrange(b + 1, c) =~= height);
}

/// A text that is nothing but digits `0` to `9`, a colon and digits `0` to
/// `9` is read as these two numbers.
pub proof fn lemma_plain_ratio(width: Seq<char>, height: Seq<char>)
    requires
        width.len() > 0,
        height.len() > 0,
        all_ascii_digits(width),
        all_ascii_digits(height),
    ensures
        ratio_value(width + seq![':'] + height) == groups_value(width, height),
{
    let none = Seq::<char>::empty();
    lemma_ratio_in_context(none, width, height, none);
    assert(none + width + seq![':'] + height + none =~= width + seq![':'] + height);
}

/// Two numbers of 16 bits, written in base ten with a colon between them,
/// are read back as they were.
pub proof fn lemma_written_ratio(width: u16, height: u16)
    ensures
        ratio_value(decimal_digits(width as nat) + seq![':'] + decimal_digits(height as nat))
            == Ok::<(u16, u16), RatioError>((width, height)),
{
    lemma_decimal_digits(width as nat);
    lemma_decimal_digits(height as nat);
    lemma_plain_ratio(decimal_digits(width as nat), decimal_digits(height as nat));
}

/// A text gives no ratio for want of a match exactly if no part of it is
/// digits, a colon and digits.
pub proof fn lemma_no_match_iff_no_ratio(text: Seq<char>)
    ensures
        ratio_value(text) == Err::<(u16, u16), RatioError>(RatioError::NoMatch) <==> !contains_ratio(
            text,
        ),
{
}

/// A component above 65535 is never read: the text then gives no ratio.
/// The error names the size, unless the width holds a foreign digit.
pub proof fn lemma_large_component_fails(text: Seq<char>)
    requires
        first_groups(text) matches Some(groups) && (is_too_large(groups.0) || is_too_large(
            groups.1,
        )),
    ensures
        ratio_value(text) is Err,
        first_groups(text) matches Some(groups) && all_ascii_digits(groups.0) ==> ratio_value(text)
            == Err::<(u16, u16), RatioError>(RatioError::OutOfRange),
{
    lemma_groups_are_digit_runs(text);
}

} // verus!
