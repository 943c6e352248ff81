//! Why a text gives no ratio, and what the user is told.

use vstd::prelude::*;

verus! {

/// What the user is told when the ratio cannot be read, whatever the reason.
pub const PARSE_FAILURE: &'static str =
    "Cannot parse ratio. Ensure ratio is in format of w:h, e.g.: '16:9'";

/// The reason for which a text gives no ratio.
#[derive(Debug, Clone, Copy, PartialEq, Eq, Structural)]
pub enum RatioError {
    /// No part of the text is a run of digits, a colon and a run of digits.
    NoMatch,
    /// A component is not written with the digits `0` to `9` alone. In a
    /// ratio that was found in a text it then holds a digit of another script.
    InvalidDigit,
    /// A component is larger than 65535.
    OutOfRange,
}

impl RatioError {
    /// The diagnostic for the user. It is the same for every reason.
    pub fn message(&self) -> (msg: &'static str)
        ensures
            msg@ == PARSE_FAILURE@,
    {
        PARSE_FAILURE
    }
}

} // verus!
