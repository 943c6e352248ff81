//! From a text to the ratio that it names.

use crate::digits::{group_value, parse_digit_group};
use crate::error::RatioError;
use crate::pattern::{contains_ratio, find_groups, first_groups};
use vstd::prelude::*;

verus! {

/// The ratio whose width is written as `width` and whose height as `height`.
/// Where neither is a number of 16 bits, the error is that of the width.
pub open spec fn groups_value(width: Seq<char>, height: Seq<char>) -> Result<
    (u16, u16),
    RatioError,
> {
    match group_value(width) {
        Err(e) => Err(e),
        Ok(w) => match group_value(height) {
            Err(e) => Err(e),
            Ok(h) => Ok((w, h)),
        },
    }
}

/// The ratio that `text` names: that of the first place where digits, a
/// colon and digits follow each other.
pub open spec fn ratio_value(text: Seq<char>) -> Result<(u16, u16), RatioError> {
    match first_groups(text) {
        None => Err(RatioError::NoMatch),
        Some((width, height)) => groups_value(width, height),
    }
}

/// Reads the two components of a ratio, the width first.
pub fn ratio_from_groups(width: &str, height: &str) -> (r: Result<(u16, u16), RatioError>)
    ensures
        r == groups_value(width@, height@),
{
    match parse_digit_group(width) {
        Err(e) => Err(e),
        Ok(w) => match parse_digit_group(height) {
            Err(e) => Err(e),
            Ok(h) => Ok((w, h)),
        },
    }
}

/// Reads the target ratio out of what the user typed. The text may hold
/// more than the ratio: the first place where digits, a colon and digits
/// follow each other decides, also where its numbers cannot be read.
pub fn parse_ratio(ratio: &str) -> (r: Result<(u16, u16), RatioError>)
    ensures
        r == ratio_value(ratio@),
        r == Err::<(u16, u16), RatioError>(RatioError::NoMatch) <==> !contains_ratio(ratio@),
{
    match find_groups(ratio) {
        None => Err(RatioError::NoMatch),
        Some((width, height)) => ratio_from_groups(width, height),
    }
}

} // verus!
