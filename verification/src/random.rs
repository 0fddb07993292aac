use vstd::prelude::*;

verus! {

/// The widest range over which the generator's arithmetic is exact: two to
/// the power twenty. Up to this bound a draw never lands on the excluded
/// upper end of its range.
pub const EXACT_SPAN: u32 = 1_048_576;

/// Asks the process-wide generator behind `macroquad::rand::gen_range` for
/// a whole number.
///
/// Trusted: the generator scales a 32-bit fraction in `[0, 1)` onto the
/// range in 64-bit floating point and cuts off the fractional part. Both
/// ends of the range are whole numbers that such a float holds exactly and
/// rounding never passes one, so the result lies between `low` and `high`.
/// While `high` is at most `EXACT_SPAN` nothing is rounded at all, and the
/// result is below `high` unless the range is empty. Nothing is claimed
/// about which value is drawn.
#[verifier::external_body]
fn generator_draw(low: u32, high: u32) -> (drawn: u32)
    requires
        low <= high,
    ensures
        low <= drawn <= high,
        low < high && high <= EXACT_SPAN ==> drawn < high,
{
    macroquad::rand::gen_range(low, high)
}

/// Draws a whole number from `low` up to, but not including, `high`; from
/// an empty range it draws `low`.
///
/// Over a range so wide that the generator's rounding can land on `high`,
/// such a draw counts as the last number below it.
pub fn uniform_between(low: u32, high: u32) -> (drawn: u32)
    requires
        low <= high,
    ensures
        low <= drawn <= high,
        low < high ==> drawn < high,
{
    let drawn = generator_draw(low, high);
    if low < high && drawn == high {
        high - 1
    } else {
        drawn
    }
}

} // verus!
