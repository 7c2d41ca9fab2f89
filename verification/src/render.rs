//! The render-side model: the shared tile cache, the target surface, and the
//! best-effort paint of one pyramid level.
//!
//! The cache is an ordered mapping from tile key to decoded texture, written
//! by an external loader and read here; any entry may be absent at any
//! moment, and a miss is a normal outcome, not an error. Painting records,
//! on the target surface, exactly the tiles that were resident when they
//! were looked up; absent tiles silently paint nothing.

use std::collections::BTreeMap;
use vstd::prelude::*;

use crate::{Thumb, TileRef};
use crate::viewport::Viewport;

verus! {

broadcast use vstd::std_specs::btree::group_btree_axioms, vstd::laws_cmp::group_laws_cmp;

/// One decoded, GPU-resident bitmap tile. Entries of the shared cache;
/// immutable while resident.
#[derive(Debug, Clone, Copy, PartialEq, Eq, Structural)]
pub struct Texture {
    pub width: u32,
    pub height: u32,
}

/// The shared tile cache: an ordered mapping from tile key to decoded
/// texture, populated and evicted by the external loader.
pub type TileCache = BTreeMap<TileRef, Texture>;

/// The target surface, modelled by the tiles blitted onto it, in paint
/// order.
#[derive(Debug)]
pub struct Canvas {
    pub painted: Vec<TileRef>,
}

impl Canvas {
    /// A fresh surface with nothing painted yet.
    pub fn new() -> (c: Canvas)
        ensures
            c.painted@ =~= Seq::<TileRef>::empty(),
    {
        Canvas { painted: Vec::new() }
    }
}

/// Of `keys`, in order, those that are resident in `cache`: the tiles a
/// best-effort paint of a level with those keys blits.
pub open spec fn present_tiles(keys: Seq<TileRef>, cache: Map<TileRef, Texture>) -> Seq<TileRef>
    decreases keys.len(),
{
    if keys.len() == 0 {
        Seq::empty()
    } else {
        let rest = present_tiles(keys.drop_last(), cache);
        if cache.contains_key(keys.last()) {
            rest.push(keys.last())
        } else {
            rest
        }
    }
}

impl Thumb {
    /// Best-effort paint of this level: look each backing tile up in the
    /// shared cache and blit the ones that are resident, in order; a missing
    /// tile paints nothing for its region. The viewport decides geometry
    /// only and never which tiles are considered, so it is unused in this
    /// model.
    pub fn draw(&self, _view: &Viewport, tiles: &TileCache, canvas: &mut Canvas)
        ensures
            final(canvas).painted@ =~= old(canvas).painted@ + present_tiles(self.tiles@, tiles@),
    {
        let mut i: usize = 0;
        while i < self.tiles.len()
            invariant
                i <= self.tiles@.len(),
                canvas.painted@ =~= old(canvas).painted@ + present_tiles(
                    self.tiles@.take(i as int),
                    tiles@,
                ),
            decreases self.tiles@.len() - i,
        {
            let key = self.tiles[i];
            if tiles.contains_key(&key) {
                canvas.painted.push(key);
            }
            proof {
                let t = self.tiles@.take(i + 1);
                assert(t.drop_last() =~= self.tiles@.take(i as int));
                assert(t.last() == self.tiles@[i as int]);
            }
            i += 1;
        }
        proof {
            assert(self.tiles@.take(self.tiles@.len() as int) =~= self.tiles@);
        }
    }
}

} // verus!
