//! Thumbnail-level selection and tile-cache lookup for a scrolling image
//! gallery.
//!
//! Each source image comes with a pyramid of precomputed thumbnails, ordered
//! from smallest to largest. A display slot tracks one image: its identity,
//! the loading state of its metadata, and which pyramid level is currently
//! selected for the viewport. Drawing a slot looks the selected level's tiles
//! up in a shared cache and paints whatever is resident, reporting success as
//! soon as a level has been selected at all.

use vstd::prelude::*;

pub mod image;
pub mod render;
pub mod select;
pub mod viewport;

verus! {

/// An opaque, totally ordered key naming one decoded bitmap tile in the
/// shared cache. It carries no ownership of the pixels.
pub type TileRef = u64;

/// Identity of one source file, shared (reference-counted) between every
/// display slot that currently shows the same image.
#[derive(Debug)]
pub struct File {
    pub id: u64,
}

/// One level of a thumbnail pyramid: its native resolution (largest
/// dimension, in pixels) and the cache keys of the tiles that back it.
#[derive(Debug, Clone)]
pub struct Thumb {
    pub size: u32,
    pub tiles: Vec<TileRef>,
}

impl Thumb {
    /// A level is backed by at least one tile.
    pub open spec fn wf(&self) -> bool {
        self.tiles@.len() >= 1
    }
}

/// An immutable snapshot of one image's thumbnail pyramid, ordered from
/// smallest to largest resolution (index 0 = smallest).
#[derive(Debug, Clone)]
pub struct Metadata {
    pub thumbs: Vec<Thumb>,
}

impl Metadata {
    /// A pyramid holds at least one level, strictly ordered by resolution,
    /// each level well formed.
    pub open spec fn wf(&self) -> bool {
        &&& self.thumbs@.len() >= 1
        &&& forall|i: int, j: int|
            0 <= i < j < self.thumbs@.len() ==> self.thumbs@[i].size < self.thumbs@[j].size
        &&& forall|i: int| 0 <= i < self.thumbs@.len() ==> self.thumbs@[i].wf()
    }
}

/// The tri-state lifecycle of metadata loading. A slot moves only from
/// `Unknown` to `Missing` or `Loaded`; it never silently reverts.
#[derive(Debug)]
pub enum MetadataState {
    /// No resolution attempted yet, or resolution in flight. Not an error.
    Unknown,
    /// Resolution attempted and definitively failed. Terminal until an
    /// external re-resolution is triggered.
    Missing,
    /// Resolution succeeded; carries the immutable pyramid snapshot.
    Loaded(Metadata),
}

impl MetadataState {
    /// A loaded record carries a well-formed pyramid.
    pub open spec fn wf(&self) -> bool {
        match self {
            MetadataState::Loaded(m) => m.wf(),
            _ => true,
        }
    }
}

} // verus!
