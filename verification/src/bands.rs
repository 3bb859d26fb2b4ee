//! Where a price stands against a pair of bands or a channel. The caller
//! compares the floating-point price with the upper and lower lines and hands
//! the two outcomes over.

use vstd::prelude::*;

verus! {

/// The touch reported for a price: `upper` when it is at or above the upper
/// line (checked first), `lower` when at or below the lower line, `middle`
/// otherwise.
pub open spec fn touch_label(at_or_above_upper: bool, at_or_below_lower: bool) -> Seq<char> {
    if at_or_above_upper {
        "upper"@
    } else if at_or_below_lower {
        "lower"@
    } else {
        "middle"@
    }
}

/// Which volatility band a price touches.
pub fn check_band_touch(at_or_above_upper: bool, at_or_below_lower: bool) -> (s: &'static str)
    ensures
        s@ == touch_label(at_or_above_upper, at_or_below_lower),
{
    if at_or_above_upper {
        "upper"
    } else if at_or_below_lower {
        "lower"
    } else {
        "middle"
    }
}

/// Which line of a channel a price touches.
pub fn check_channel_touch(at_or_above_upper: bool, at_or_below_lower: bool) -> (s: &'static str)
    ensures
        s@ == touch_label(at_or_above_upper, at_or_below_lower),
{
    if at_or_above_upper {
        "upper"
    } else if at_or_below_lower {
        "lower"
    } else {
        "middle"
    }
}

} // verus!
