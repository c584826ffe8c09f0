//! Integer core of a ray caster: colors, the output image buffer, the camera
//! sensor's pixel grid, second degree polynomials and nearest-hit selection.

use vstd::prelude::*;

pub mod colors;
pub mod image;
pub mod polynom;
pub mod scene;
pub mod sensor;
pub mod shading;

verus! {

/// Width and height of a pixel grid.
#[derive(Debug, Copy, Clone)]
pub struct Dimension {
    pub x: u32,
    pub y: u32,
}

} // verus!
