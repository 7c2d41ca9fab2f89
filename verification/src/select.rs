//! Level selection: map a viewport scale to an index into a thumbnail
//! pyramid.
//!
//! Policy: choose the smallest pyramid level whose native resolution is
//! sufficient for the current viewport scale, falling back to the largest
//! level when none is, and never reaching past the end of the pyramid.

use vstd::prelude::*;

use crate::Thumb;

verus! {

/// The pyramid index that the selection policy chooses for `scale`: the
/// first level whose resolution is at least `scale`, else the last level.
pub open spec fn chosen_level(thumbs: Seq<Thumb>, scale: u32) -> int
    decreases thumbs.len(),
{
    if thumbs.len() <= 1 {
        0
    } else if thumbs[0].size >= scale {
        0
    } else {
        1 + chosen_level(thumbs.drop_first(), scale)
    }
}

/// The chosen level is a real index; every level below it is too small; and
/// it is either itself sufficient or the largest level of the pyramid.
pub proof fn lemma_chosen_level_props(thumbs: Seq<Thumb>, scale: u32)
    requires
        thumbs.len() >= 1,
    ensures
        0 <= chosen_level(thumbs, scale) < thumbs.len(),
        forall|j: int| 0 <= j < chosen_level(thumbs, scale) ==> thumbs[j].size < scale,
        thumbs[chosen_level(thumbs, scale)].size >= scale || chosen_level(thumbs, scale)
            == thumbs.len() - 1,
    decreases thumbs.len(),
{
    if thumbs.len() == 1 {
    } else if thumbs[0].size >= scale {
    } else {
        let rest = thumbs.drop_first();
        lemma_chosen_level_props(rest, scale);
        assert forall|j: int| 0 <= j < chosen_level(thumbs, scale) implies thumbs[j].size
            < scale by {
            if j >= 1 {
                assert(thumbs[j] == rest[j - 1]);
            }
        }
        assert(thumbs[chosen_level(thumbs, scale)] == rest[chosen_level(rest, scale)]);
    }
}

/// The first sufficient level is the chosen one.
pub proof fn lemma_chosen_level_first_fit(thumbs: Seq<Thumb>, scale: u32, i: int)
    requires
        0 <= i < thumbs.len(),
        forall|j: int| 0 <= j < i ==> thumbs[j].size < scale,
        thumbs[i].size >= scale,
    ensures
        chosen_level(thumbs, scale) == i,
    decreases thumbs.len(),
{
    if thumbs.len() <= 1 {
    } else if thumbs[0].size >= scale {
    } else {
        lemma_chosen_level_first_fit(thumbs.drop_first(), scale, i - 1);
    }
}

/// When no level is sufficient, the largest one is chosen.
pub proof fn lemma_chosen_level_fallback(thumbs: Seq<Thumb>, scale: u32)
    requires
        thumbs.len() >= 1,
        forall|j: int| 0 <= j < thumbs.len() ==> thumbs[j].size < scale,
    ensures
        chosen_level(thumbs, scale) == thumbs.len() - 1,
    decreases thumbs.len(),
{
    if thumbs.len() == 1 {
    } else {
        lemma_chosen_level_fallback(thumbs.drop_first(), scale);
    }
}

/// Zooming in never moves the selection to a smaller pyramid level: for a
/// fixed pyramid, the chosen index is monotone in the viewport scale.
pub proof fn lemma_chosen_level_monotone(thumbs: Seq<Thumb>, s1: u32, s2: u32)
    requires
        thumbs.len() >= 1,
        s1 <= s2,
    ensures
        chosen_level(thumbs, s1) <= chosen_level(thumbs, s2),
    decreases thumbs.len(),
{
    if thumbs.len() == 1 {
    } else if thumbs[0].size >= s1 {
        lemma_chosen_level_props(thumbs, s2);
    } else {
        lemma_chosen_level_monotone(thumbs.drop_first(), s1, s2);
    }
}

/// Walks the pyramid from the smallest level up and returns the first level
/// whose resolution reaches `scale`, or the largest level when none does.
pub fn pick_level(thumbs: &Vec<Thumb>, scale: u32) -> (n: usize)
    requires
        thumbs@.len() >= 1,
    ensures
        n == chosen_level(thumbs@, scale),
{
    let mut i: usize = 0;
    while i < thumbs.len()
        invariant
            thumbs@.len() >= 1,
            i <= thumbs@.len(),
            forall|j: int| 0 <= j < i ==> thumbs@[j].size < scale,
        decreases thumbs@.len() - i,
    {
        if thumbs[i].size >= scale {
            proof {
                lemma_chosen_level_first_fit(thumbs@, scale, i as int);
            }
            return i;
        }
        i += 1;
    }
    proof {
        lemma_chosen_level_fallback(thumbs@, scale);
    }
    thumbs.len() - 1
}

} // verus!
