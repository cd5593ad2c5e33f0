//! Attachment texture provider: describes the GPU image that backs the
//! depth attachment of the render pass.
//!
//! The provider is a pure factory. The GPU allocation itself is performed by
//! the event pump; this module fixes what that allocation must look like: an
//! image sized exactly to the current surface configuration, in a
//! depth-capable format, usable only as a depth-stencil attachment.

use vstd::prelude::*;

verus! {

/// The renderer-observable description of an attachment (depth) texture.
///
/// The renderer keeps this description in lockstep with the surface
/// configuration: whenever the configured dimensions change, the texture is
/// replaced by a new one of the new dimensions, never mutated in place.
#[derive(Clone, Copy, Debug, PartialEq, Eq, Structural)]
pub struct Texture {
    pub width: u32,
    pub height: u32,
}

impl Texture {
    /// A depth texture sized to the given dimensions.
    ///
    /// Dimensions must be positive: the provider is only ever invoked
    /// downstream of the renderer's dimension check, and a zero-sized GPU
    /// image must never be requested from the driver. The label is a
    /// diagnostic aid with no semantic content.
    pub fn create_depth_texture(width: u32, height: u32, _label: &str) -> (texture: Texture)
        requires
            width > 0,
            height > 0,
        ensures
            texture.width == width,
            texture.height == height,
    {
        Texture { width, height }
    }
}

} // verus!
