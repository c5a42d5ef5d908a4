//! The per-axis decision of the camera-follow clamp.
//!
//! On one axis the camera wants its offset at `desired`, the target position
//! less half the viewport extent. The limit region gives `min_bound` (its
//! position less half the viewport extent) and `max_bound` (its extent).
//! When the viewport is no larger than the limit, the offset must lie in
//! `[lo, hi]` with `lo = min_bound + extent / 2` and
//! `hi = lo + max_bound - extent`. The arithmetic on coordinates is done by
//! the caller; which of the candidate offsets is taken is decided here, from
//! the three comparisons alone.

use vstd::prelude::*;

verus! {

/// Which value becomes the camera's offset on one axis.
#[derive(Clone, Copy, Debug, PartialEq, Eq, Structural)]
pub enum AxisOffset {
    /// The viewport is larger than the limit: `max_bound / 2 - min_bound`,
    /// whatever the target.
    Centred,
    /// The desired offset lies below `lo`: the offset is `lo`.
    Lower,
    /// The desired offset lies above `hi`: the offset is `hi`.
    Upper,
    /// The desired offset lies within `[lo, hi]` and is kept as it is.
    Desired,
}

/// The offset taken on one axis, given whether the viewport extent exceeds
/// the limit's extent, whether the desired offset is below `lo`, and whether
/// it is above `hi`.
pub open spec fn offset_choice(oversized: bool, below_lo: bool, above_hi: bool) -> AxisOffset {
    if oversized {
        AxisOffset::Centred
    } else if below_lo {
        AxisOffset::Lower
    } else if above_hi {
        AxisOffset::Upper
    } else {
        AxisOffset::Desired
    }
}

/// Decides the offset on one axis: the centre of the limit when the viewport
/// is oversized, else the desired offset clamped into `[lo, hi]`.
pub fn choose_offset(oversized: bool, below_lo: bool, above_hi: bool) -> (r: AxisOffset)
    ensures
        r == offset_choice(oversized, below_lo, above_hi),
{
    if oversized {
        AxisOffset::Centred
    } else if below_lo {
        AxisOffset::Lower
    } else if above_hi {
        AxisOffset::Upper
    } else {
        AxisOffset::Desired
    }
}

/// An oversized viewport is centred on the limit, wherever the target lies.
pub proof fn lemma_oversized_ignores_target(below_a: bool, above_a: bool, below_b: bool, above_b: bool)
    ensures
        offset_choice(true, below_a, above_a) == AxisOffset::Centred,
        offset_choice(true, below_a, above_a) == offset_choice(true, below_b, above_b),
{
}

/// When the viewport fits in the limit, the desired offset is kept exactly
/// when it lies within `[lo, hi]`, and is otherwise moved to the bound that
/// it passes.
pub proof fn lemma_fitting_viewport_is_clamped(below_lo: bool, above_hi: bool)
    requires
        !(below_lo && above_hi),
    ensures
        (offset_choice(false, below_lo, above_hi) == AxisOffset::Desired) <==> (!below_lo && !above_hi),
        below_lo ==> offset_choice(false, below_lo, above_hi) == AxisOffset::Lower,
        above_hi ==> offset_choice(false, below_lo, above_hi) == AxisOffset::Upper,
{
}

} // verus!
