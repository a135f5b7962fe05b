//! The graphics widget: the counters it reads.

use vstd::prelude::*;
use crate::text::{parse_u32, parsed_unsigned, trim, trimmed};

verus! {

/// The number that a counter file states. A file that could not be read, or
/// that holds no number, counts as zero.
pub open spec fn counter_of(text: Option<&str>) -> int {
    match text {
        Some(t) => match parsed_unsigned(trimmed(t@), u32::MAX as int) {
            Some(v) => v,
            None => 0,
        },
        None => 0,
    }
}

/// The number that a counter file states.
pub fn read_counter(text: Option<&str>) -> (r: u32)
    ensures
        r == counter_of(text),
{
    match text {
        Some(t) => match parse_u32(trim(t)) {
            Some(v) => v,
            None => 0,
        },
        None => 0,
    }
}

} // verus!
