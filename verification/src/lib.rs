//! Target aspect ratios of the form `width:height`, read from free text.
//!
//! A ratio is looked for anywhere in the text: the first place where a run
//! of decimal digits, a colon and a second run of decimal digits follow each
//! other decides. Its two runs are then read as numbers of 16 bits.

pub mod digits;
pub mod error;
pub mod laws;
pub mod pattern;
pub mod ratio;

pub use digits::parse_digit_group;
pub use error::{RatioError, PARSE_FAILURE};
pub use pattern::{find_groups, RATIO_PATTERN};
pub use ratio::{parse_ratio, ratio_from_groups};
