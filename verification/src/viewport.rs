//! The viewport state that the render loop supplies each frame.

use vstd::prelude::*;

verus! {

/// Viewport state for one frame: the size, in pixels, at which a display
/// slot is currently shown. Zooming in raises `scale`; level selection picks
/// the smallest pyramid level whose native resolution covers it.
#[derive(Debug, Clone, Copy, PartialEq, Eq, Structural)]
pub struct Viewport {
    pub scale: u32,
}

} // verus!
