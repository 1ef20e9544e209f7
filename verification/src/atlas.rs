//! Growth policy of the glyph atlas.
//!
//! The atlas is a single-channel texture whose size is a pair `(width, height)`.
//! When the glyph cache cannot fit the queued glyphs it suggests a larger size.
//! The policy follows the suggestion, except that a suggestion beyond what the
//! hardware can allocate is cut down to the largest square texture as long as
//! the atlas has not reached that bound yet.

use vstd::prelude::*;

verus! {

/// Whether `size` is larger than `max` on some axis.
pub open spec fn exceeds(size: (u32, u32), max: u32) -> bool {
    size.0 > max || size.1 > max
}

/// Whether `size` is smaller than `max` on some axis.
pub open spec fn below(size: (u32, u32), max: u32) -> bool {
    size.0 < max || size.1 < max
}

/// Whether `a` is at least as large as `b` on both axes.
pub open spec fn covers(a: (u32, u32), b: (u32, u32)) -> bool {
    a.0 >= b.0 && a.1 >= b.1
}

/// The size the atlas takes next, given the size the glyph cache suggested, the
/// size the atlas has now, and the largest texture dimension of the hardware.
pub open spec fn next_size(suggested: (u32, u32), current: (u32, u32), max: u32) -> (u32, u32) {
    if exceeds(suggested, max) && below(current, max) {
        (max, max)
    } else {
        suggested
    }
}

/// Chooses the size to which the atlas is resized.
///
/// A suggestion within the hardware bound is taken as it is. A suggestion
/// beyond the bound becomes `(max, max)` while the atlas is still below the
/// bound on some axis; once the atlas has reached the bound on both axes the
/// suggestion is passed on unchanged.
pub fn choose_atlas_size(suggested: (u32, u32), current: (u32, u32), max: u32) -> (chosen: (u32, u32))
    ensures
        chosen == next_size(suggested, current, max),
        !exceeds(suggested, max) ==> chosen == suggested,
        exceeds(suggested, max) && below(current, max) ==> chosen == (max, max),
        exceeds(suggested, max) && !below(current, max) ==> chosen == suggested,
{
    if (suggested.0 > max || suggested.1 > max) && (current.0 < max || current.1 < max) {
        (max, max)
    } else {
        suggested
    }
}

/// The atlas never outgrows the hardware bound while it is below the bound on
/// some axis: only an atlas that already sits at the bound on both axes can be
/// given a size beyond it.
pub proof fn lemma_bounded_until_at_bound(suggested: (u32, u32), current: (u32, u32), max: u32)
    ensures
        below(current, max) ==> !exceeds(next_size(suggested, current, max), max),
        exceeds(next_size(suggested, current, max), max) ==> current.0 >= max && current.1 >= max,
{
}

/// The atlas only grows: an atlas within the hardware bound that is offered a
/// size at least as large as its own is never resized to anything smaller.
pub proof fn lemma_grows_only(suggested: (u32, u32), current: (u32, u32), max: u32)
    requires
        covers(suggested, current),
        !exceeds(current, max),
    ensures
        covers(next_size(suggested, current, max), current),
{
}

} // verus!
