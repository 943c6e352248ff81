//! Where a text holds a ratio: a run of digits, a colon and a second run of
//! digits. The search itself is done by the `regex` crate.

use crate::digits::is_ascii_digit;
use vstd::prelude::*;

verus! {

/// The regular expression of a ratio. Its two groups are the components.
pub const RATIO_PATTERN: &'static str = r"(\d+):(\d+)";

/// Whether the class `\d` of the `regex` crate holds `c`. The class follows
/// Unicode: it is the general category `Nd` in the tables of the crate.
/// Nothing is known of it here but what `capture_groups` states.
pub uninterp spec fn regex_digit(c: char) -> bool;

/// Whether `c` counts as a digit in a ratio. In ASCII these are `0` to `9`
/// and nothing else; beyond ASCII the `regex` crate decides.
pub open spec fn is_digit(c: char) -> bool {
    if c <= '\x7f' {
        is_ascii_digit(c)
    } else {
        regex_digit(c)
    }
}

/// Whether `s` is made of digits of any script, and of one at least.
pub open spec fn is_digit_run(s: Seq<char>) -> bool {
    &&& s.len() > 0
    &&& forall|i: int| 0 <= i < s.len() ==> is_digit(#[trigger] s[i])
}

/// Whether `text` holds digits from `a` up to a colon at `b`, and digits
/// after the colon up to `c`.
pub open spec fn holds_ratio(text: Seq<char>, a: int, b: int, c: int) -> bool {
    &&& 0 <= a < b
    &&& b + 1 < c <= text.len()
    &&& forall|i: int| a <= i < b ==> is_digit(#[trigger] text[i])
    &&& text[b] == ':'
    &&& forall|i: int| b < i < c ==> is_digit(#[trigger] text[i])
}

/// Whether some part of `text` is a ratio.
pub open spec fn contains_ratio(text: Seq<char>) -> bool {
    exists|a: int, b: int, c: int| holds_ratio(text, a, b, c)
}

/// Whether the ratio at `a`, `b`, `c` is the one that a search finds: no
/// ratio begins further left, and its second run of digits goes on as far as
/// there are digits.
pub open spec fn is_first_ratio(text: Seq<char>, a: int, b: int, c: int) -> bool {
    &&& holds_ratio(text, a, b, c)
    &&& c == text.len() || !is_digit(text[c])
    &&& forall|a2: int, b2: int, c2: int| holds_ratio(text, a2, b2, c2) ==> a <= a2
}

/// The two runs of digits of the first ratio in `text`, if it holds one.
pub open spec fn first_groups(text: Seq<char>) -> Option<(Seq<char>, Seq<char>)> {
    if contains_ratio(text) {
        let (a, b, c) = choose|a: int, b: int, c: int| is_first_ratio(text, a, b, c);
        Some((text.subrange(a, b), text.subrange(b + 1, c)))
    } else {
        None
    }
}

/// No text holds two first ratios.
pub proof fn lemma_first_ratio_unique(
    text: Seq<char>,
    a: int,
    b: int,
    c: int,
    a2: int,
    b2: int,
    c2: int,
)
    requires
        is_first_ratio(text, a, b, c),
        is_first_ratio(text, a2, b2, c2),
    ensures
        a == a2,
        b == b2,
        c == c2,
{
    assert(holds_ratio(text, a, b, c));
    assert(holds_ratio(text, a2, b2, c2));
    assert(a == a2);
    assert(!is_digit(':'));
    if b < b2 {
        assert(is_digit(text[b]));
    }
    if b2 < b {
        assert(is_digit(text[b2]));
    }
    if c < c2 {
        assert(is_digit(text[c]));
    }
    if c2 < c {
        assert(is_digit(text[c2]));
    }
}

/// A ratio whose second run of digits is cut short can be lengthened until
/// the digits end.
proof fn lemma_lengthen(text: Seq<char>, a: int, b: int, c: int) -> (end: int)
    requires
        holds_ratio(text, a, b, c),
    ensures
        holds_ratio(text, a, b, end),
        end == text.len() || !is_digit(text[end]),
    decreases text.len() - c,
{
    if c < text.len() && is_digit(text[c]) {
        lemma_lengthen(text, a, b, c + 1)
    } else {
        c
    }
}

/// Among the ratios of a text one begins leftmost.
proof fn lemma_leftmost(text: Seq<char>, a: int, b: int, c: int) -> (first: (int, int, int))
    requires
        holds_ratio(text, a, b, c),
    ensures
        holds_ratio(text, first.0, first.1, first.2),
        forall|a2: int, b2: int, c2: int| holds_ratio(text, a2, b2, c2) ==> first.0 <= a2,
    decreases a,
{
    if exists|a2: int, b2: int, c2: int| holds_ratio(text, a2, b2, c2) && a2 < a {
        let (a2, b2, c2) = choose|a2: int, b2: int, c2: int|
            holds_ratio(text, a2, b2, c2) && a2 < a;
        lemma_leftmost(text, a2, b2, c2)
    } else {
        (a, b, c)
    }
}

/// A text that holds a ratio holds a first one.
pub proof fn lemma_first_ratio_exists(text: Seq<char>)
    requires
        contains_ratio(text),
    ensures
        exists|a: int, b: int, c: int| is_first_ratio(text, a, b, c),
{
    let (a0, b0, c0) = choose|a: int, b: int, c: int| holds_ratio(text, a, b, c);
    let (a, b, c) = lemma_leftmost(text, a0, b0, c0);
    let end = lemma_lengthen(text, a, b, c);
    assert(is_first_ratio(text, a, b, end));
}

/// The groups of a text are those of its first ratio, wherever that lies.
pub proof fn lemma_first_groups_at(text: Seq<char>, a: int, b: int, c: int)
    requires
        is_first_ratio(text, a, b, c),
    ensures
        first_groups(text) == Some((text.subrange(a, b), text.subrange(b + 1, c))),
{
    assert(holds_ratio(text, a, b, c));
    let (a2, b2, c2) = choose|a2: int, b2: int, c2: int| is_first_ratio(text, a2, b2, c2);
    lemma_first_ratio_unique(text, a, b, c, a2, b2, c2);
}

/// The groups of a text are runs of digits.
pub proof fn lemma_groups_are_digit_runs(text: Seq<char>)
    ensures
        first_groups(text) matches Some(groups) ==> is_digit_run(groups.0) && is_digit_run(
            groups.1,
        ),
{
    if contains_ratio(text) {
        lemma_first_ratio_exists(text);
        let (a, b, c) = choose|a: int, b: int, c: int| is_first_ratio(text, a, b, c);
        assert(holds_ratio(text, a, b, c));
        let width = text.subrange(a, b);
        let height = text.subrange(b + 1, c);
        assert forall|i: int| 0 <= i < width.len() implies is_digit(#[trigger] width[i]) by {
            assert(width[i] == text[a + i]);
        }
        assert forall|i: int| 0 <= i < height.len() implies is_digit(#[trigger] height[i]) by {
            assert(height[i] == text[b + 1 + i]);
        }
    }
}

/// Compiles `pattern` with `regex::Regex::new`, searches `text` with
/// `Regex::captures` and hands out what the groups 1 and 2 of the match hold
/// (`Captures::get`, `Match::as_str`).
///
/// Trusted, of the pattern of a ratio alone: it compiles; there is a match
/// exactly if some part of the text is digits, a colon and digits; the
/// search is leftmost-first, so no ratio begins before the match; `+` is
/// greedy and no digit is a colon, so the first group is the run of digits
/// before the colon and the second the whole run of digits behind it; and
/// the digits are the characters of the class `\d`.
#[verifier::external_body]
pub(crate) fn capture_groups<'a>(pattern: &str, text: &'a str) -> (groups: Option<
    (&'a str, &'a str),
>)
    requires
        pattern@ == RATIO_PATTERN@,
    ensures
        match groups {
            Some((width, height)) => exists|a: int, b: int, c: int|
                {
                    &&& is_first_ratio(text@, a, b, c)
                    &&& width@ == text@.subrange(a, b)
                    &&& height@ == text@.subrange(b + 1, c)
                },
            None => !contains_ratio(text@),
        },
        groups matches Some((width, height)) ==> {
            &&& forall|i: int| 0 <= i < width@.len() ==> regex_digit(#[trigger] width@[i])
            &&& forall|i: int| 0 <= i < height@.len() ==> regex_digit(#[trigger] height@[i])
        },
{
    let re = regex::Regex::new(pattern).unwrap();
    let caps = re.captures(text)?;
    Some((caps.get(1)?.as_str(), caps.get(2)?.as_str()))
}

/// Finds the two runs of digits of the first ratio in `text`.
pub fn find_groups<'a>(text: &'a str) -> (groups: Option<(&'a str, &'a str)>)
    ensures
        match groups {
            Some((width, height)) => first_groups(text@) == Some((width@, height@)),
            None => first_groups(text@) is None,
        },
{
    let groups = capture_groups(RATIO_PATTERN, text);
    proof {
        if let Some((width, height)) = groups {
            let (a, b, c) = choose|a: int, b: int, c: int|
                {
                    &&& is_first_ratio(text@, a, b, c)
                    &&& width@ == text@.subrange(a, b)
                    &&& height@ == text@.subrange(b + 1, c)
                };
            lemma_first_groups_at(text@, a, b, c);
        }
    }
    groups
}

} // verus!
