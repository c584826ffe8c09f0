//! Shader stages that hold no configuration.

use vstd::prelude::*;

verus! {

/// The facing shader: scales a color by how squarely the ray meets the surface.
#[derive(Debug, Clone, Copy)]
pub struct Fast;

} // verus!
