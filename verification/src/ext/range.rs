//! The bounds of an inclusive range, from std.
use vstd::prelude::*;

use std::ops::RangeInclusive;

verus! {

/// `RangeInclusive::start`: the lower bound.
#[verifier::external_body]
pub(crate) fn range_start(range: &RangeInclusive<u16>) -> (r: u16)
    ensures
        r == range@.start,
{
    *range.start()
}

/// `RangeInclusive::end`: the upper bound.
#[verifier::external_body]
pub(crate) fn range_end(range: &RangeInclusive<u16>) -> (r: u16)
    ensures
        r == range@.end,
{
    *range.end()
}

/// `RangeInclusive::is_empty`: the range holds no port, because its start
/// lies above its end or because iterating it ran to its end.
#[verifier::external_body]
pub(crate) fn range_is_empty(range: &RangeInclusive<u16>) -> (r: bool)
    ensures
        r == (range@.exhausted || range@.start > range@.end),
{
    range.is_empty()
}

} // verus!
