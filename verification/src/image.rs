//! The per-slot view model: one display position, the file it shows, the
//! loading state of that file's metadata, and the currently selected
//! pyramid level.

use std::sync::Arc;
use vstd::prelude::*;

use crate::{File, Metadata, MetadataState};
use crate::render::{Canvas, TileCache, present_tiles};
use crate::select::{chosen_level, lemma_chosen_level_monotone, pick_level};
use crate::viewport::Viewport;

verus! {

/// State of one display slot. `size` is the selected pyramid level: `None`
/// until selection has run for the current viewport, and cleared by
/// [`Image::reset`] whenever the previous choice can no longer be trusted.
#[derive(Debug)]
pub struct Image {
    pub i: usize,
    pub file: Arc<File>,
    pub metadata: MetadataState,
    pub size: Option<usize>,
}

impl Image {
    /// A slot is well formed when its metadata is, and a level is selected
    /// only with loaded metadata and only inside the pyramid. Selection is
    /// never set without a `Loaded` state, so drawing a selected level can
    /// always find its descriptor.
    pub open spec fn wf(&self) -> bool {
        &&& self.metadata.wf()
        &&& match self.size {
            Some(n) => self.metadata matches MetadataState::Loaded(m) && (n as int)
                < m.thumbs@.len(),
            None => true,
        }
    }

    /// Whether a draw of this slot would report success: exactly when a
    /// pyramid level is currently selected.
    pub open spec fn draw_succeeds(&self) -> bool {
        self.size is Some
    }

    /// The slot as it stands after a reset: the selection cleared,
    /// everything else untouched.
    pub open spec fn after_reset(self) -> Image {
        Image { size: None, ..self }
    }

    /// The level that selection records for this metadata at this scale:
    /// the policy's choice for a loaded pyramid, none otherwise.
    pub open spec fn spec_selection(metadata: MetadataState, scale: u32) -> Option<usize> {
        match metadata {
            MetadataState::Loaded(m) => Some(chosen_level(m.thumbs@, scale) as usize),
            _ => None,
        }
    }

    /// The slot as it stands after selection ran for `scale`: the selection
    /// recomputed from the metadata alone, everything else untouched.
    pub open spec fn after_select(self, scale: u32) -> Image {
        Image { size: Image::spec_selection(self.metadata, scale), ..self }
    }

    /// Binds a slot at display position `i` to a file and the metadata
    /// state the loader has reached for it; no level is selected yet.
    pub fn from(i: usize, file: Arc<File>, metadata: MetadataState) -> (img: Image)
        requires
            metadata.wf(),
        ensures
            img == (Image { i, file, metadata, size: None }),
            img.wf(),
            !img.draw_succeeds(),
    {
        Image { i, file, metadata, size: None }
    }

    /// True exactly when metadata resolution has definitively failed;
    /// `Unknown` (still pending) and `Loaded` both report false.
    pub fn is_missing(&self) -> (missing: bool)
        ensures
            missing == (self.metadata is Missing),
    {
        matches!(self.metadata, MetadataState::Missing)
    }

    /// Clears the selection unconditionally, whatever the metadata state;
    /// the next draw reports failure until selection runs again.
    pub fn reset(&mut self)
        ensures
            *final(self) == old(self).after_reset(),
            !final(self).draw_succeeds(),
            final(self).wf() == old(self).metadata.wf(),
    {
        self.size = None;
    }

    /// The loaded pyramid snapshot, or nothing while metadata is still
    /// pending or definitively missing. Callers must not assume a record
    /// exists without checking.
    pub fn get_metadata(&self) -> (record: Option<&Metadata>)
        ensures
            match record {
                Some(m) => self.metadata matches MetadataState::Loaded(l) && *m == l,
                None => !(self.metadata is Loaded),
            },
    {
        match &self.metadata {
            MetadataState::Loaded(metadata) => Some(metadata),
            _ => None,
        }
    }

    /// Recomputes the selected level for the current viewport scale: the
    /// smallest sufficient pyramid level, the largest as fallback. With
    /// metadata still pending or missing there is nothing to select and the
    /// slot stays without a selection. Selection is a function of the
    /// (metadata, scale) pair alone, so repeating it with neither changed
    /// repeats the same slot state.
    pub fn select(&mut self, view: &Viewport)
        requires
            old(self).wf(),
        ensures
            *final(self) == old(self).after_select(view.scale),
            final(self).wf(),
            final(self).draw_succeeds() == (old(self).metadata is Loaded),
    {
        match &self.metadata {
            MetadataState::Loaded(metadata) => {
                proof {
                    crate::select::lemma_chosen_level_props(metadata.thumbs@, view.scale);
                }
                let n = pick_level(&metadata.thumbs, view.scale);
                self.size = Some(n);
            },
            _ => {
                self.size = None;
            },
        }
    }

    /// Attempts to render the selected level onto `canvas` with the tiles
    /// currently resident in the shared cache. Without a selection it
    /// paints nothing and reports failure; with one it blits the level's
    /// resident tiles — possibly none — and reports success. Success means
    /// "a level was attempted with best-available data", not "every pixel
    /// was produced": tiles absent at this instant paint nothing for their
    /// region.
    pub fn draw(&self, view: &Viewport, tiles: &TileCache, canvas: &mut Canvas) -> (ok: bool)
        requires
            self.wf(),
        ensures
            ok == self.draw_succeeds(),
            final(canvas).painted@ =~= old(canvas).painted@ + self.drawn_tiles(tiles@),
    {
        match self.size {
            Some(n) => {
                match &self.metadata {
                    MetadataState::Loaded(metadata) => {
                        let thumb = &metadata.thumbs[n];
                        thumb.draw(view, tiles, canvas);
                        true
                    },
                    _ => {
                        proof {
                            assert(false);
                        }
                        false
                    },
                }
            },
            None => {
                proof {
                    assert(old(canvas).painted@ + Seq::<crate::TileRef>::empty() =~= old(
                        canvas,
                    ).painted@);
                }
                false
            },
        }
    }

    /// The tiles a draw of this slot blits, in order: the resident tiles of
    /// the selected level, or none while no level is selected.
    pub open spec fn drawn_tiles(
        &self,
        cache: Map<crate::TileRef, crate::render::Texture>,
    ) -> Seq<crate::TileRef> {
        match (self.size, self.metadata) {
            (Some(n), MetadataState::Loaded(m)) => present_tiles(m.thumbs@[n as int].tiles@, cache),
            _ => Seq::empty(),
        }
    }
}

/// Resetting a slot forces the next draw to report failure, whatever the
/// metadata state was and whatever level had been selected before.
pub proof fn lemma_reset_forces_draw_failure(before: Image, after: Image)
    requires
        after == before.after_reset(),
    ensures
        !after.draw_succeeds(),
{
}

/// Selection is idempotent: running it twice for the same viewport scale,
/// with the metadata unchanged in between, leaves exactly the slot state
/// that the first run produced.
pub proof fn lemma_select_idempotent(slot: Image, scale: u32)
    ensures
        slot.after_select(scale).after_select(scale) == slot.after_select(scale),
{
}

/// Zooming in never moves a slot's selection to a smaller pyramid level:
/// for one loaded pyramid, the level selected for a larger viewport scale
/// is at least the level selected for a smaller one.
pub proof fn lemma_select_monotone(slot: Image, s1: u32, s2: u32)
    requires
        slot.wf(),
        slot.metadata is Loaded,
        s1 <= s2,
    ensures
        slot.after_select(s1).size matches Some(n1) ==> slot.after_select(s2).size matches Some(n2)
            && n1 <= n2,
{
    match slot.metadata {
        MetadataState::Loaded(m) => {
            assert(m.thumbs.len() == m.thumbs@.len());
            crate::select::lemma_chosen_level_props(m.thumbs@, s1);
            crate::select::lemma_chosen_level_props(m.thumbs@, s2);
            lemma_chosen_level_monotone(m.thumbs@, s1, s2);
        },
        _ => {},
    }
}

} // verus!
