//! Brightness levels and percentages, held as the bit patterns of IEEE-754
//! single-precision numbers, the form in which the platform takes and gives
//! them.

use vstd::prelude::*;

verus! {

/// Bits of `1.0`.
pub const ONE_BITS: u32 = 0x3F80_0000;

/// Bits of `-0.0`, which compares equal to `0.0`.
pub const NEGATIVE_ZERO_BITS: u32 = 0x8000_0000;

/// Bits of `10.0`, the lowest percentage that may be set.
pub const TEN_BITS: u32 = 0x4120_0000;

/// Bits of `100.0`.
pub const HUNDRED_BITS: u32 = 0x42C8_0000;

/// The number with these bits satisfies `0.0 <= x <= 1.0`. Non-negative
/// numbers order as their bits do, and every NaN, every negative number but
/// `-0.0` and everything above `1.0` has bits outside this set.
pub open spec fn in_unit_interval(bits: u32) -> bool {
    bits <= ONE_BITS || bits == NEGATIVE_ZERO_BITS
}

/// The number with these bits is zero, of either sign.
pub open spec fn is_zero(bits: u32) -> bool {
    bits == 0 || bits == NEGATIVE_ZERO_BITS
}

/// The number with these bits satisfies `10.0 <= x <= 100.0`.
pub open spec fn in_percent_range(bits: u32) -> bool {
    TEN_BITS <= bits <= HUNDRED_BITS
}

/// Tells whether the number with these bits is a valid level, in `[0, 1]`.
pub fn is_unit_level(bits: u32) -> (r: bool)
    ensures
        r == in_unit_interval(bits),
{
    bits <= ONE_BITS || bits == NEGATIVE_ZERO_BITS
}

/// Why a requested brightness percentage is refused.
#[derive(Debug, Clone, Copy, PartialEq, Eq, Structural)]
pub enum PercentError {
    /// Zero would switch the display off and is never accepted.
    Zero,
    /// The percentage lies outside `10..=100`.
    OutOfRange,
}

/// Checks a percentage asked for on the command line before any controller
/// is built: zero is refused on its own account, and anything else outside
/// `10..=100` (NaN included) is out of range.
pub fn check_percentage(bits: u32) -> (r: Result<(), PercentError>)
    ensures
        is_zero(bits) ==> r == Err::<(), PercentError>(PercentError::Zero),
        !is_zero(bits) && !in_percent_range(bits) ==> r == Err::<(), PercentError>(
            PercentError::OutOfRange,
        ),
        !is_zero(bits) && in_percent_range(bits) ==> r is Ok,
{
    if bits == 0 || bits == NEGATIVE_ZERO_BITS {
        Err(PercentError::Zero)
    } else if TEN_BITS <= bits && bits <= HUNDRED_BITS {
        Ok(())
    } else {
        Err(PercentError::OutOfRange)
    }
}

} // verus!
