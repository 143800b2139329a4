use vstd::prelude::*;

verus! {

/// The uplift, in percentage points, that a bond of the given rating ordinal
/// adds to the base reserve: `floor((rating - 1) * multiplier * 10 / 9)`,
/// with a rating of zero counted as one.
pub open spec fn reserve_uplift(rating: u8, multiplier: u8) -> int {
    let steps: int = if rating >= 1 { rating - 1 } else { 0 };
    (steps * multiplier * 10) / 9
}

/// The required reserve percentage: the base plus the uplift, capped at `u8::MAX`.
pub open spec fn required_reserve(base: u8, rating: u8, multiplier: u8) -> int {
    let total = base + reserve_uplift(rating, multiplier);
    if total > u8::MAX { u8::MAX as int } else { total }
}

/// Computes the fiat reserve percentage that a coin backed by a bond of rating
/// ordinal `ordinal` must hold, given the factory's base reserve and multiplier.
pub fn calculate_required_reserve(base: u8, ordinal: u8, multiplier: u8) -> (r: u8)
    ensures
        r == required_reserve(base, ordinal, multiplier),
{
    let steps: u32 = ordinal.saturating_sub(1) as u32;
    assert(steps * (multiplier as u32) * 10 <= 254 * 255 * 10) by (nonlinear_arith)
        requires
            steps <= 254,
            multiplier <= 255,
    ;
    let uplift: u32 = steps * (multiplier as u32) * 10 / 9;
    let total: u32 = base as u32 + uplift;
    if total > u8::MAX as u32 {
        u8::MAX
    } else {
        total as u8
    }
}

} // verus!
