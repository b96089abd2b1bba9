use vstd::prelude::*;

verus! {

/// What a ray found: nothing, a glyph stroke, the room's walls, or the sun plane.
#[derive(Debug, Clone, Copy, PartialEq, Eq, Structural)]
pub enum SurfaceKind {
    Miss,
    Letter,
    Wall,
    Sun,
}

} // verus!
